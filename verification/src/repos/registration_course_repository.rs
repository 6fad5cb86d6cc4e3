//! Courses seen through the registrations of a user.
use vstd::prelude::*;
use crate::models::CourseStatus;
use crate::decimal::{all_to_i64, DecimalParts};
use crate::statement::{placeholder_count, placeholders_upto, ArgValue, SqlArg, Statement};

verus! {

/// The text sent by `find_courses_by_user_id_statement`.
pub const FIND_COURSES_BY_USER_ID: &'static str = r"
                SELECT
                    courses.id as `id:CourseID`,
                    courses.code as `code:CourseCode`,
                    courses.type as `type_:CourseType`,
                    courses.name,
                    courses.description,
                    courses.credit,
                    courses.period,
                    courses.day_of_week as `day_of_week:DayOfWeek`,
                    courses.teacher_id as `teacher_id:UserID`,
                    courses.keywords,
                    courses.status as `status:CourseStatus`
                FROM `registrations`
                JOIN `courses` ON `registrations`.`course_id` = `courses`.`id`
                WHERE `user_id` = ?
            ";

/// The text sent by `find_open_courses_by_user_id_statement`.
pub const FIND_OPEN_COURSES_BY_USER_ID: &'static str = r"
                SELECT
                    courses.id as `id:CourseID`,
                    courses.code as `code:CourseCode`,
                    courses.type as `type_:CourseType`,
                    courses.name,
                    courses.description,
                    courses.credit,
                    courses.period,
                    courses.day_of_week as `day_of_week:DayOfWeek`,
                    courses.teacher_id as `teacher_id:UserID`,
                    courses.keywords,
                    courses.status as `status:CourseStatus`
                FROM `courses`
                JOIN `registrations` ON `courses`.`id` = `registrations`.`course_id`
                WHERE `courses`.`status` != ? AND `registrations`.`user_id` = ?
            ";

/// The text sent by `find_open_courses_by_user_id_in_tx_statement`.
pub const FIND_OPEN_COURSES_BY_USER_ID_IN_TX: &'static str = "SELECT `courses`.* FROM `courses` JOIN `registrations` ON `courses`.`id` = `registrations`.`course_id` WHERE `courses`.`status` != ? AND `registrations`.`user_id` = ?";

/// The text sent by `find_total_scores_by_course_id_group_by_user_id_statement`.
pub const FIND_TOTAL_SCORES_BY_COURSE_ID: &'static str = r"
                SELECT IFNULL(SUM(`submissions`.`score`), 0) AS `total_score`
                FROM `users`
                JOIN `registrations` ON `users`.`id` = `registrations`.`user_id`
                JOIN `courses` ON `registrations`.`course_id` = `courses`.`id`
                LEFT JOIN `classes` ON `courses`.`id` = `classes`.`course_id`
                LEFT JOIN `submissions` ON `users`.`id` = `submissions`.`user_id` AND `submissions`.`class_id` = `classes`.`id`
                WHERE `courses`.`id` = ?
                GROUP BY `users`.`id`
            ";

proof fn lemma_find_courses_by_user_id()
    ensures
        placeholder_count(FIND_COURSES_BY_USER_ID@) == 1,
{
    reveal_strlit(r"
                SELECT
                    courses.id as `id:CourseID`,
                    courses.code as `code:CourseCode`,
                    courses.type as `type_:CourseType`,
                    courses.name,
                    courses.description,
                    courses.credit,
                    courses.period,
                    courses.day_of_week as `day_of_week:DayOfWeek`,
                    courses.teacher_id as `teacher_id:UserID`,
                    courses.keywords,
                    courses.status as `status:CourseStatus`
                FROM `registrations`
                JOIN `courses` ON `registrations`.`course_id` = `courses`.`id`
                WHERE `user_id` = ?
            ");
    let s = FIND_COURSES_BY_USER_ID@;
    assert(placeholders_upto(s, 50) == 0) by {
        reveal_with_fuel(placeholders_upto, 51);
    }
    assert(placeholders_upto(s, 100) == 0) by {
        reveal_with_fuel(placeholders_upto, 51);
    }
    assert(placeholders_upto(s, 150) == 0) by {
        reveal_with_fuel(placeholders_upto, 51);
    }
    assert(placeholders_upto(s, 200) == 0) by {
        reveal_with_fuel(placeholders_upto, 51);
    }
    assert(placeholders_upto(s, 250) == 0) by {
        reveal_with_fuel(placeholders_upto, 51);
    }
    assert(placeholders_upto(s, 300) == 0) by {
        reveal_with_fuel(placeholders_upto, 51);
    }
    assert(placeholders_upto(s, 350) == 0) by {
        reveal_with_fuel(placeholders_upto, 51);
    }
    assert(placeholders_upto(s, 400) == 0) by {
        reveal_with_fuel(placeholders_upto, 51);
    }
    assert(placeholders_upto(s, 450) == 0) by {
        reveal_with_fuel(placeholders_upto, 51);
    }
    assert(placeholders_upto(s, 500) == 0) by {
        reveal_with_fuel(placeholders_upto, 51);
    }
    assert(placeholders_upto(s, 550) == 0) by {
        reveal_with_fuel(placeholders_upto, 51);
    }
    assert(placeholders_upto(s, 600) == 0) by {
        reveal_with_fuel(placeholders_upto, 51);
    }
    assert(placeholders_upto(s, 650) == 0) by {
        reveal_with_fuel(placeholders_upto, 51);
    }
    assert(placeholders_upto(s, 700) == 0) by {
        reveal_with_fuel(placeholders_upto, 51);
    }
    assert(placeholders_upto(s, s.len()) == 1) by {
        reveal_with_fuel(placeholders_upto, 51);
    }
}

proof fn lemma_find_open_courses_by_user_id()
    ensures
        placeholder_count(FIND_OPEN_COURSES_BY_USER_ID@) == 2,
{
    reveal_strlit(r"
                SELECT
                    courses.id as `id:CourseID`,
                    courses.code as `code:CourseCode`,
                    courses.type as `type_:CourseType`,
                    courses.name,
                    courses.description,
                    courses.credit,
                    courses.period,
                    courses.day_of_week as `day_of_week:DayOfWeek`,
                    courses.teacher_id as `teacher_id:UserID`,
                    courses.keywords,
                    courses.status as `status:CourseStatus`
                FROM `courses`
                JOIN `registrations` ON `courses`.`id` = `registrations`.`course_id`
                WHERE `courses`.`status` != ? AND `registrations`.`user_id` = ?
            ");
    let s = FIND_OPEN_COURSES_BY_USER_ID@;
    assert(placeholders_upto(s, 50) == 0) by {
        reveal_with_fuel(placeholders_upto, 51);
    }
    assert(placeholders_upto(s, 100) == 0) by {
        reveal_with_fuel(placeholders_upto, 51);
    }
    assert(placeholders_upto(s, 150) == 0) by {
        reveal_with_fuel(placeholders_upto, 51);
    }
    assert(placeholders_upto(s, 200) == 0) by {
        reveal_with_fuel(placeholders_upto, 51);
    }
    assert(placeholders_upto(s, 250) == 0) by {
        reveal_with_fuel(placeholders_upto, 51);
    }
    assert(placeholders_upto(s, 300) == 0) by {
        reveal_with_fuel(placeholders_upto, 51);
    }
    assert(placeholders_upto(s, 350) == 0) by {
        reveal_with_fuel(placeholders_upto, 51);
    }
    assert(placeholders_upto(s, 400) == 0) by {
        reveal_with_fuel(placeholders_upto, 51);
    }
    assert(placeholders_upto(s, 450) == 0) by {
        reveal_with_fuel(placeholders_upto, 51);
    }
    assert(placeholders_upto(s, 500) == 0) by {
        reveal_with_fuel(placeholders_upto, 51);
    }
    assert(placeholders_upto(s, 550) == 0) by {
        reveal_with_fuel(placeholders_upto, 51);
    }
    assert(placeholders_upto(s, 600) == 0) by {
        reveal_with_fuel(placeholders_upto, 51);
    }
    assert(placeholders_upto(s, 650) == 0) by {
        reveal_with_fuel(placeholders_upto, 51);
    }
    assert(placeholders_upto(s, 700) == 0) by {
        reveal_with_fuel(placeholders_upto, 51);
    }
    assert(placeholders_upto(s, 750) == 1) by {
        reveal_with_fuel(placeholders_upto, 51);
    }
    assert(placeholders_upto(s, s.len()) == 2) by {
        reveal_with_fuel(placeholders_upto, 51);
    }
}

proof fn lemma_find_open_courses_by_user_id_in_tx()
    ensures
        placeholder_count(FIND_OPEN_COURSES_BY_USER_ID_IN_TX@) == 2,
{
    reveal_strlit("SELECT `courses`.* FROM `courses` JOIN `registrations` ON `courses`.`id` = `registrations`.`course_id` WHERE `courses`.`status` != ? AND `registrations`.`user_id` = ?");
    let s = FIND_OPEN_COURSES_BY_USER_ID_IN_TX@;
    assert(placeholders_upto(s, 50) == 0) by {
        reveal_with_fuel(placeholders_upto, 51);
    }
    assert(placeholders_upto(s, 100) == 0) by {
        reveal_with_fuel(placeholders_upto, 51);
    }
    assert(placeholders_upto(s, 150) == 1) by {
        reveal_with_fuel(placeholders_upto, 51);
    }
    assert(placeholders_upto(s, s.len()) == 2) by {
        reveal_with_fuel(placeholders_upto, 51);
    }
}

proof fn lemma_find_total_scores_by_course_id()
    ensures
        placeholder_count(FIND_TOTAL_SCORES_BY_COURSE_ID@) == 1,
{
    reveal_strlit(r"
                SELECT IFNULL(SUM(`submissions`.`score`), 0) AS `total_score`
                FROM `users`
                JOIN `registrations` ON `users`.`id` = `registrations`.`user_id`
                JOIN `courses` ON `registrations`.`course_id` = `courses`.`id`
                LEFT JOIN `classes` ON `courses`.`id` = `classes`.`course_id`
                LEFT JOIN `submissions` ON `users`.`id` = `submissions`.`user_id` AND `submissions`.`class_id` = `classes`.`id`
                WHERE `courses`.`id` = ?
                GROUP BY `users`.`id`
            ");
    let s = FIND_TOTAL_SCORES_BY_COURSE_ID@;
    assert(placeholders_upto(s, 50) == 0) by {
        reveal_with_fuel(placeholders_upto, 51);
    }
    assert(placeholders_upto(s, 100) == 0) by {
        reveal_with_fuel(placeholders_upto, 51);
    }
    assert(placeholders_upto(s, 150) == 0) by {
        reveal_with_fuel(placeholders_upto, 51);
    }
    assert(placeholders_upto(s, 200) == 0) by {
        reveal_with_fuel(placeholders_upto, 51);
    }
    assert(placeholders_upto(s, 250) == 0) by {
        reveal_with_fuel(placeholders_upto, 51);
    }
    assert(placeholders_upto(s, 300) == 0) by {
        reveal_with_fuel(placeholders_upto, 51);
    }
    assert(placeholders_upto(s, 350) == 0) by {
        reveal_with_fuel(placeholders_upto, 51);
    }
    assert(placeholders_upto(s, 400) == 0) by {
        reveal_with_fuel(placeholders_upto, 51);
    }
    assert(placeholders_upto(s, 450) == 0) by {
        reveal_with_fuel(placeholders_upto, 51);
    }
    assert(placeholders_upto(s, 500) == 0) by {
        reveal_with_fuel(placeholders_upto, 51);
    }
    assert(placeholders_upto(s, 550) == 1) by {
        reveal_with_fuel(placeholders_upto, 51);
    }
    assert(placeholders_upto(s, s.len()) == 1) by {
        reveal_with_fuel(placeholders_upto, 51);
    }
}

/// Repository of the courses a user registered for.
#[derive(Clone, Copy, Debug)]
pub struct RegistrationCourseRepositoryInfra {}

impl RegistrationCourseRepositoryInfra {
    /// The courses user `user_id` registered for.
    pub fn find_courses_by_user_id_statement(&self, user_id: &String) -> (st: Statement)
        ensures
            st.text() == FIND_COURSES_BY_USER_ID@,
            st.values() == seq![ArgValue::Text(user_id@)],
            st.well_formed(),
    {
        let mut args: Vec<SqlArg> = Vec::new();
        args.push(SqlArg::Text(user_id.clone()));
        let st = Statement { sql: String::from_str(FIND_COURSES_BY_USER_ID), args };
        proof {
            lemma_find_courses_by_user_id();
            assert(st.values() =~= seq![ArgValue::Text(user_id@)]);
        }
        st
    }

    /// The courses user `user_id` registered for that are not closed; the closed status is bound first.
    pub fn find_open_courses_by_user_id_statement(&self, user_id: &String) -> (st: Statement)
        ensures
            st.text() == FIND_OPEN_COURSES_BY_USER_ID@,
            st.values() == seq![ArgValue::Text(CourseStatus::Closed.spec_db_name()), ArgValue::Text(user_id@)],
            st.well_formed(),
    {
        let mut args: Vec<SqlArg> = Vec::new();
        args.push(SqlArg::Text(String::from_str(CourseStatus::Closed.db_name())));
        args.push(SqlArg::Text(user_id.clone()));
        let st = Statement { sql: String::from_str(FIND_OPEN_COURSES_BY_USER_ID), args };
        proof {
            lemma_find_open_courses_by_user_id();
            assert(st.values() =~= seq![ArgValue::Text(CourseStatus::Closed.spec_db_name()), ArgValue::Text(user_id@)]);
        }
        st
    }

    /// The same courses as `find_open_courses_by_user_id_statement`, read inside a transaction, with all columns of the course.
    pub fn find_open_courses_by_user_id_in_tx_statement(&self, user_id: &String) -> (st: Statement)
        ensures
            st.text() == FIND_OPEN_COURSES_BY_USER_ID_IN_TX@,
            st.values() == seq![ArgValue::Text(CourseStatus::Closed.spec_db_name()), ArgValue::Text(user_id@)],
            st.well_formed(),
    {
        let mut args: Vec<SqlArg> = Vec::new();
        args.push(SqlArg::Text(String::from_str(CourseStatus::Closed.db_name())));
        args.push(SqlArg::Text(user_id.clone()));
        let st = Statement { sql: String::from_str(FIND_OPEN_COURSES_BY_USER_ID_IN_TX), args };
        proof {
            lemma_find_open_courses_by_user_id_in_tx();
            assert(st.values() =~= seq![ArgValue::Text(CourseStatus::Closed.spec_db_name()), ArgValue::Text(user_id@)]);
        }
        st
    }

    /// For each user registered for course `course_id`, the sum of their scores in its classes (0 without any).
    pub fn find_total_scores_by_course_id_group_by_user_id_statement(&self, course_id: &String) -> (st: Statement)
        ensures
            st.text() == FIND_TOTAL_SCORES_BY_COURSE_ID@,
            st.values() == seq![ArgValue::Text(course_id@)],
            st.well_formed(),
    {
        let mut args: Vec<SqlArg> = Vec::new();
        args.push(SqlArg::Text(course_id.clone()));
        let st = Statement { sql: String::from_str(FIND_TOTAL_SCORES_BY_COURSE_ID), args };
        proof {
            lemma_find_total_scores_by_course_id();
            assert(st.values() =~= seq![ArgValue::Text(course_id@)]);
        }
        st
    }

    /// The totals as integers, in row order; `None` when one does not fit
    /// in an `i64`.
    pub fn find_total_scores_by_course_id_group_by_user_id_result(&self, rows: &Vec<DecimalParts>) -> (r:
        Option<Vec<i64>>)
        requires
            forall|i: int| 0 <= i < rows.len() ==> rows[i].valid(),
        ensures
            r is Some <==> forall|i: int| 0 <= i < rows.len() ==> rows[i].to_i64_spec() is Some,
            r matches Some(v) ==> v.len() == rows.len() && forall|i: int|
                0 <= i < rows.len() ==> rows[i].to_i64_spec() == Some(#[trigger] v[i]),
    {
        all_to_i64(rows)
    }
}

} // verus!
