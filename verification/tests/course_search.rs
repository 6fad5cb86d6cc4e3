use isucholar_infra::models::SearchCoursesQuery;
use isucholar_infra::repos::course_repository::CourseRepositoryInfra;
use isucholar_infra::statement::{SqlArg, Statement};

fn empty_query() -> SearchCoursesQuery {
    SearchCoursesQuery {
        type_: None,
        credit: None,
        teacher: None,
        period: None,
        day_of_week: None,
        keywords: None,
        status: None,
    }
}

fn text(s: &str) -> SqlArg {
    SqlArg::Text(s.to_string())
}

fn placeholders(st: &Statement) -> usize {
    st.sql.chars().filter(|c| *c == '?').count()
}

const BASE: &str = "SELECT `courses`.*, `users`.`name` AS `teacher` FROM `courses` JOIN `users` ON `courses`.`teacher_id` = `users`.`id` WHERE 1=1";

#[test]
fn search_without_conditions() {
    let repo = CourseRepositoryInfra {};
    let st = repo.find_all_with_teacher_statement(20, 40, &empty_query());
    assert_eq!(
        st.sql,
        format!("{} ORDER BY `courses`.`code` LIMIT ? OFFSET ?", BASE)
    );
    assert_eq!(st.args, vec![SqlArg::I64(21), SqlArg::I64(40)]);
    assert_eq!(placeholders(&st), st.args.len());
}

#[test]
fn search_with_every_condition() {
    let repo = CourseRepositoryInfra {};
    let q = SearchCoursesQuery {
        type_: Some("major-subjects".to_string()),
        credit: Some(2),
        teacher: Some("Sato".to_string()),
        period: Some(3),
        day_of_week: Some("monday".to_string()),
        keywords: Some("math proof".to_string()),
        status: Some("registration".to_string()),
    };
    let st = repo.find_all_with_teacher_statement(20, 0, &q);
    let expected = format!(
        "{}{}{}{}{}{}{}{}{}",
        BASE,
        " AND `courses`.`type` = ?",
        " AND `courses`.`credit` = ?",
        " AND `users`.`name` = ?",
        " AND `courses`.`period` = ?",
        " AND `courses`.`day_of_week` = ?",
        " AND ((1=1 AND `courses`.`name` LIKE ? AND `courses`.`name` LIKE ?) OR (1=1 AND `courses`.`keywords` LIKE ? AND `courses`.`keywords` LIKE ?))",
        " AND `courses`.`status` = ?",
        " ORDER BY `courses`.`code` LIMIT ? OFFSET ?"
    );
    assert_eq!(st.sql, expected);
    assert_eq!(
        st.args,
        vec![
            text("major-subjects"),
            SqlArg::I64(2),
            text("Sato"),
            SqlArg::I64(3),
            text("monday"),
            text("%math%"),
            text("%proof%"),
            text("%math%"),
            text("%proof%"),
            text("registration"),
            SqlArg::I64(21),
            SqlArg::I64(0),
        ]
    );
    assert_eq!(placeholders(&st), st.args.len());
}

#[test]
fn search_ignores_nonpositive_credit_and_period() {
    let repo = CourseRepositoryInfra {};
    let mut q = empty_query();
    q.credit = Some(0);
    q.period = Some(-4);
    let with = repo.find_all_with_teacher_statement(10, 5, &q);
    let without = repo.find_all_with_teacher_statement(10, 5, &empty_query());
    assert_eq!(with.sql, without.sql);
    assert_eq!(with.args, without.args);
}

#[test]
fn search_keyword_with_double_space_keeps_empty_word() {
    let repo = CourseRepositoryInfra {};
    let mut q = empty_query();
    q.keywords = Some("a  b".to_string());
    let st = repo.find_all_with_teacher_statement(1, 0, &q);
    assert_eq!(
        st.args,
        vec![
            text("%a%"),
            text("%%"),
            text("%b%"),
            text("%a%"),
            text("%%"),
            text("%b%"),
            SqlArg::I64(2),
            SqlArg::I64(0),
        ]
    );
    assert_eq!(placeholders(&st), 8);
}

#[test]
fn search_empty_keywords_is_one_empty_word() {
    let repo = CourseRepositoryInfra {};
    let mut q = empty_query();
    q.keywords = Some(String::new());
    let st = repo.find_all_with_teacher_statement(1, 0, &q);
    assert!(st.sql.contains(
        " AND ((1=1 AND `courses`.`name` LIKE ?) OR (1=1 AND `courses`.`keywords` LIKE ?))"
    ));
    assert_eq!(st.args[0], text("%%"));
    assert_eq!(placeholders(&st), st.args.len());
}

#[test]
fn search_keywords_in_japanese() {
    let repo = CourseRepositoryInfra {};
    let mut q = empty_query();
    q.keywords = Some("数学 証明".to_string());
    let st = repo.find_all_with_teacher_statement(1, 0, &q);
    assert_eq!(st.args[0], text("%数学%"));
    assert_eq!(st.args[1], text("%証明%"));
}
