use isucholar_infra::decimal::DecimalParts;
use isucholar_infra::error::{DbFailure, ReposError};
use isucholar_infra::models::{
    Announcement, CourseStatus, CourseType, CreateClass, CreateCourse, CreateSubmission, DayOfWeek,
    UserType,
};
use isucholar_infra::repos::announcement_repository::{
    AnnouncementRepositoryInfra, FIND_BY_ID as ANNOUNCEMENT_FIND_BY_ID, INSERT_ANNOUNCEMENT,
};
use isucholar_infra::repos::class_repository::{
    ClassRepositoryInfra, CLOSE_SUBMISSION_BY_ID, FIND_ALL_WITH_SUBMITTED,
    FIND_BY_COURSE_ID_AND_PART, INSERT_CLASS,
};
use isucholar_infra::repos::course_repository::{
    CourseRepositoryInfra, COUNT_BY_ID, FIND_BY_CODE as COURSE_FIND_BY_CODE, INSERT_COURSE,
    UPDATE_STATUS_BY_ID,
};
use isucholar_infra::repos::registration_course_repository::{
    RegistrationCourseRepositoryInfra, FIND_OPEN_COURSES_BY_USER_ID,
};
use isucholar_infra::repos::registration_repository::{
    RegistrationRepositoryInfra, UPSERT_REGISTRATION,
};
use isucholar_infra::repos::submission_repository::{
    SubmissionRepositoryInfra, FIND_SCORE, UPDATE_SCORE, UPSERT_SUBMISSION,
};
use isucholar_infra::repos::unread_announcement_repository::{
    UnreadAnnouncementRepositoryInfra, MARK_READ,
};
use isucholar_infra::repos::user_repository::{UserRepositoryInfra, FIND_GPAS};
use isucholar_infra::statement::{SqlArg, Statement};
use isucholar_infra::storages::submission_file_storage::SubmissionFileStorageInfra;

fn text(s: &str) -> SqlArg {
    SqlArg::Text(s.to_string())
}

fn s(v: &str) -> String {
    v.to_string()
}

fn well_formed(st: &Statement) -> bool {
    st.sql.chars().filter(|c| *c == '?').count() == st.args.len()
}

fn duplicate() -> DbFailure {
    DbFailure { mysql_error_number: Some(1062), message: s("Duplicate entry") }
}

fn other_failure() -> DbFailure {
    DbFailure { mysql_error_number: Some(1452), message: s("foreign key") }
}

fn not_a_server_error() -> DbFailure {
    DbFailure { mysql_error_number: None, message: s("pool timed out") }
}

#[test]
fn enum_names_in_database() {
    assert_eq!(CourseType::LiberalArts.db_name(), "liberal-arts");
    assert_eq!(CourseType::MajorSubjects.db_name(), "major-subjects");
    assert_eq!(DayOfWeek::Monday.db_name(), "monday");
    assert_eq!(DayOfWeek::Friday.db_name(), "friday");
    assert_eq!(CourseStatus::Registration.db_name(), "registration");
    assert_eq!(CourseStatus::InProgress.db_name(), "in-progress");
    assert_eq!(CourseStatus::Closed.db_name(), "closed");
    assert_eq!(UserType::Student.db_name(), "student");
    assert_eq!(UserType::Teacher.db_name(), "teacher");
}

fn course() -> CreateCourse {
    CreateCourse {
        id: s("c1"),
        code: s("X-101"),
        type_: CourseType::LiberalArts,
        name: s("Logic"),
        description: s("intro"),
        credit: 2,
        period: 3,
        day_of_week: DayOfWeek::Wednesday,
        teacher_id: s("t1"),
        keywords: s("logic proof"),
    }
}

#[test]
fn course_insert_binds_columns_in_order() {
    let repo = CourseRepositoryInfra {};
    let st = repo.create_statement(&course());
    assert_eq!(st.sql, INSERT_COURSE);
    assert_eq!(
        st.args,
        vec![
            text("c1"),
            text("X-101"),
            text("liberal-arts"),
            text("Logic"),
            text("intro"),
            SqlArg::U8(2),
            SqlArg::U8(3),
            text("wednesday"),
            text("t1"),
            text("logic proof"),
        ]
    );
    assert!(well_formed(&st));
}

#[test]
fn course_create_result() {
    let repo = CourseRepositoryInfra {};
    assert_eq!(repo.create_result(&course(), Ok(())), Ok(s("c1")));
    assert_eq!(repo.create_result(&course(), Err(duplicate())), Err(ReposError::CourseDuplicate));
    assert_eq!(
        repo.create_result(&course(), Err(other_failure())),
        Err(ReposError::SqlError(other_failure()))
    );
    assert_eq!(
        repo.create_result(&course(), Err(not_a_server_error())),
        Err(ReposError::SqlError(not_a_server_error()))
    );
}

#[test]
fn course_lookups() {
    let repo = CourseRepositoryInfra {};
    let st = repo.update_status_by_id_statement(&s("c1"), &CourseStatus::InProgress);
    assert_eq!(st.sql, UPDATE_STATUS_BY_ID);
    assert_eq!(st.args, vec![text("in-progress"), text("c1")]);
    let st = repo.exist_by_id_statement(&s("c1"));
    assert_eq!(st.sql, COUNT_BY_ID);
    assert_eq!(st.args, vec![text("c1")]);
    let st = repo.find_by_code_statement(&s("X-101"));
    assert_eq!(st.sql, COURSE_FIND_BY_CODE);
    assert!(st.sql.contains("WHERE `code` = ?"));
    assert!(well_formed(&st));
    assert!(well_formed(&repo.find_with_teacher_by_id_statement(&s("c1"))));
    assert!(well_formed(&repo.find_for_share_lock_by_id_statement(&s("c1"))));
    assert!(well_formed(&repo.find_status_for_share_lock_by_id_statement(&s("c1"))));
    assert!(well_formed(&repo.for_update_by_id_statement(&s("c1"))));
}

#[test]
fn course_exists_only_for_one_row() {
    let repo = CourseRepositoryInfra {};
    assert!(!repo.exist_by_id_result(0));
    assert!(repo.exist_by_id_result(1));
    assert!(!repo.exist_by_id_result(2));
    assert!(repo.for_update_by_id_result(1));
    assert!(!repo.for_update_by_id_result(0));
}

#[test]
fn announcement_insert_and_result() {
    let repo = AnnouncementRepositoryInfra {};
    let a = Announcement { id: s("a1"), course_id: s("c1"), title: s("T"), message: s("M") };
    let st = repo.create_statement(&a);
    assert_eq!(st.sql, INSERT_ANNOUNCEMENT);
    assert_eq!(st.args, vec![text("a1"), text("c1"), text("T"), text("M")]);
    assert_eq!(repo.create_result(Ok(())), Ok(()));
    assert_eq!(repo.create_result(Err(duplicate())), Err(ReposError::AnnouncementDuplicate));
    assert_eq!(
        repo.create_result(Err(other_failure())),
        Err(ReposError::SqlError(other_failure()))
    );
    let st = repo.find_by_id_statement(&s("a1"));
    assert_eq!(st.sql, ANNOUNCEMENT_FIND_BY_ID);
    assert_eq!(st.args, vec![text("a1")]);
}

#[test]
fn class_statements_and_results() {
    let repo = ClassRepositoryInfra {};
    let c = CreateClass { id: s("k1"), course_id: s("c1"), part: 4, title: s("t"), description: s("d") };
    let st = repo.create_statement(&c);
    assert_eq!(st.sql, INSERT_CLASS);
    assert_eq!(st.args, vec![text("k1"), text("c1"), SqlArg::U8(4), text("t"), text("d")]);
    assert_eq!(repo.create_result(Err(duplicate())), Err(ReposError::ClassDuplicate));
    assert_eq!(repo.create_result(Ok(())), Ok(()));
    let st = repo.find_by_course_id_and_part_statement(&s("c1"), 4);
    assert_eq!(st.sql, FIND_BY_COURSE_ID_AND_PART);
    assert_eq!(st.args, vec![text("c1"), SqlArg::U8(4)]);
    let st = repo.find_all_with_submitted_by_user_id_and_course_id_statement(&s("u1"), &s("c1"));
    assert_eq!(st.sql, FIND_ALL_WITH_SUBMITTED);
    assert_eq!(st.args, vec![text("u1"), text("c1")]);
    let st = repo.update_submission_closed_by_id_statement(&s("k1"));
    assert_eq!(st.sql, CLOSE_SUBMISSION_BY_ID);
    assert!(well_formed(&repo.find_all_by_course_id_statement(&s("c1"))));
    assert!(well_formed(&repo.find_submission_closed_by_id_with_shared_lock_statement(&s("k1"))));
    assert!(well_formed(&repo.for_update_by_id_statement(&s("k1"))));
    assert!(repo.for_update_by_id_result(1));
    assert!(!repo.for_update_by_id_result(3));
}

#[test]
fn registration_statements_and_results() {
    let repo = RegistrationRepositoryInfra {};
    let st = repo.create_or_update_statement(&s("u1"), &s("c1"));
    assert_eq!(st.sql, UPSERT_REGISTRATION);
    assert_eq!(st.args, vec![text("c1"), text("u1")]);
    let st = repo.exist_by_user_id_and_course_id_statement(&s("u1"), &s("c1"));
    assert_eq!(st.args, vec![text("u1"), text("c1")]);
    assert!(!repo.exist_by_user_id_and_course_id_result(0));
    assert!(repo.exist_by_user_id_and_course_id_result(1));
    assert!(repo.exist_by_user_id_and_course_id_result(2));
    assert!(well_formed(&repo.find_users_by_course_id_statement(&s("c1"))));
}

#[test]
fn registration_course_statements_and_results() {
    let repo = RegistrationCourseRepositoryInfra {};
    let st = repo.find_open_courses_by_user_id_statement(&s("u1"));
    assert_eq!(st.sql, FIND_OPEN_COURSES_BY_USER_ID);
    assert_eq!(st.args, vec![text("closed"), text("u1")]);
    let st = repo.find_open_courses_by_user_id_in_tx_statement(&s("u1"));
    assert_eq!(st.args, vec![text("closed"), text("u1")]);
    assert!(well_formed(&st));
    assert!(well_formed(&repo.find_courses_by_user_id_statement(&s("u1"))));
    assert!(well_formed(&repo.find_total_scores_by_course_id_group_by_user_id_statement(&s("c1"))));
    let rows = vec![DecimalParts { mantissa: 180, scale: 0 }, DecimalParts { mantissa: 0, scale: 0 }];
    assert_eq!(
        repo.find_total_scores_by_course_id_group_by_user_id_result(&rows),
        Some(vec![180, 0])
    );
}

#[test]
fn submission_statements_and_results() {
    let repo = SubmissionRepositoryInfra {};
    let sub = CreateSubmission { user_id: s("u1"), class_id: s("k1"), file_name: s("f.pdf") };
    let st = repo.create_or_update_statement(&sub);
    assert_eq!(st.sql, UPSERT_SUBMISSION);
    assert_eq!(st.args, vec![text("u1"), text("k1"), text("f.pdf")]);
    let st = repo.update_score_by_user_code_and_class_id_statement(&s("S001"), &s("k1"), 87);
    assert_eq!(st.sql, UPDATE_SCORE);
    assert_eq!(st.args, vec![SqlArg::I64(87), text("S001"), text("k1")]);
    let st = repo.find_score_by_class_id_and_user_id_statement(&s("k1"), &s("u1"));
    assert_eq!(st.sql, FIND_SCORE);
    assert_eq!(st.args, vec![text("u1"), text("k1")]);
    assert_eq!(repo.find_score_by_class_id_and_user_id_result(None), None);
    assert_eq!(repo.find_score_by_class_id_and_user_id_result(Some(None)), None);
    assert_eq!(repo.find_score_by_class_id_and_user_id_result(Some(Some(90))), Some(90));
    assert!(well_formed(&repo.count_by_class_id_statement(&s("k1"))));
    assert!(well_formed(&repo.find_all_with_user_code_by_class_id_statement(&s("k1"))));
    assert!(well_formed(&repo.find_all_by_class_id_statement(&s("k1"))));
}

#[test]
fn unread_announcement_statements() {
    let repo = UnreadAnnouncementRepositoryInfra {};
    let st = repo.mark_read_statement(&s("a1"), &s("u1"));
    assert_eq!(st.sql, MARK_READ);
    assert_eq!(st.args, vec![text("a1"), text("u1")]);
    assert!(well_formed(&repo.create_statement(&s("a1"), &s("u1"))));
    assert!(well_formed(&repo.count_unread_by_user_id_statement(&s("u1"))));
    assert!(well_formed(
        &repo.find_announcement_detail_by_announcement_id_and_user_id_statement(&s("a1"), &s("u1"))
    ));
}

const UNREAD_HEAD: &str = "SELECT `announcements`.`id`, `courses`.`id` AS `course_id`, `courses`.`name` AS `course_name`, `announcements`.`title`, NOT `unread_announcements`.`is_deleted` AS `unread` FROM `announcements` JOIN `courses` ON `announcements`.`course_id` = `courses`.`id` JOIN `registrations` ON `courses`.`id` = `registrations`.`course_id` JOIN `unread_announcements` ON `announcements`.`id` = `unread_announcements`.`announcement_id` WHERE 1=1";
const UNREAD_END: &str = " AND `unread_announcements`.`user_id` = ? AND `registrations`.`user_id` = ? ORDER BY `announcements`.`id` DESC LIMIT ? OFFSET ?";

#[test]
fn unread_search_without_course() {
    let repo = UnreadAnnouncementRepositoryInfra {};
    let st = repo.find_unread_announcements_by_user_id_statement(&s("u1"), 20, 40, None);
    assert_eq!(st.sql, format!("{}{}", UNREAD_HEAD, UNREAD_END));
    assert_eq!(st.args, vec![text("u1"), text("u1"), SqlArg::I64(21), SqlArg::I64(40)]);
    assert!(well_formed(&st));
}

#[test]
fn unread_search_with_course() {
    let repo = UnreadAnnouncementRepositoryInfra {};
    let st = repo.find_unread_announcements_by_user_id_statement(&s("u1"), 10, 0, Some(s("c9")));
    assert_eq!(
        st.sql,
        format!("{} AND `announcements`.`course_id` = ?{}", UNREAD_HEAD, UNREAD_END)
    );
    assert_eq!(
        st.args,
        vec![text("c9"), text("u1"), text("u1"), SqlArg::I64(11), SqlArg::I64(0)]
    );
    assert!(well_formed(&st));
}

#[test]
fn user_statements() {
    let repo = UserRepositoryInfra {};
    let st = repo.find_gpas_group_by_user_id_statement();
    assert_eq!(st.sql, FIND_GPAS);
    assert_eq!(st.args, vec![text("closed"), text("closed"), text("student")]);
    assert!(well_formed(&repo.find_in_tx_statement(&s("u1"))));
    assert_eq!(repo.find_by_code_statement(&s("S1")).args, vec![text("S1")]);
    assert_eq!(repo.find_code_by_id_statement(&s("u1")).args, vec![text("u1")]);
}

#[test]
fn storage_handle() {
    let _storage = SubmissionFileStorageInfra::new();
    let _default: SubmissionFileStorageInfra = Default::default();
}
