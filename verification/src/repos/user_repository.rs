//! Users and the grade point averages of students.
use vstd::prelude::*;
use crate::models::{CourseStatus, UserType};
use crate::statement::{placeholder_count, placeholders_upto, ArgValue, SqlArg, Statement};

verus! {

/// The text sent by `find_in_tx_statement`.
pub const FIND_BY_ID: &'static str = "SELECT * FROM `users` WHERE `id` = ?";

/// The text sent by `find_by_code_statement`.
pub const FIND_BY_CODE: &'static str = "SELECT * FROM `users` WHERE `code` = ?";

/// The text sent by `find_code_by_id_statement`.
pub const FIND_CODE_BY_ID: &'static str = "SELECT `code` FROM `users` WHERE `id` = ?";

/// The text sent by `find_gpas_group_by_user_id_statement`.
pub const FIND_GPAS: &'static str = "SELECT IFNULL(SUM(`submissions`.`score` * `courses`.`credit`), 0) / 100 / `credits`.`credits` AS `gpa` FROM `users` JOIN (     SELECT `users`.`id` AS `user_id`, SUM(`courses`.`credit`) AS `credits`     FROM `users`     JOIN `registrations` ON `users`.`id` = `registrations`.`user_id`     JOIN `courses` ON `registrations`.`course_id` = `courses`.`id` AND `courses`.`status` = ?     GROUP BY `users`.`id` ) AS `credits` ON `credits`.`user_id` = `users`.`id` JOIN `registrations` ON `users`.`id` = `registrations`.`user_id` JOIN `courses` ON `registrations`.`course_id` = `courses`.`id` AND `courses`.`status` = ? LEFT JOIN `classes` ON `courses`.`id` = `classes`.`course_id` LEFT JOIN `submissions` ON `users`.`id` = `submissions`.`user_id` AND `submissions`.`class_id` = `classes`.`id` WHERE `users`.`type` = ? GROUP BY `users`.`id`";

proof fn lemma_find_by_id()
    ensures
        placeholder_count(FIND_BY_ID@) == 1,
{
    reveal_strlit("SELECT * FROM `users` WHERE `id` = ?");
    let s = FIND_BY_ID@;
    assert(placeholders_upto(s, s.len()) == 1) by {
        reveal_with_fuel(placeholders_upto, 51);
    }
}

proof fn lemma_find_by_code()
    ensures
        placeholder_count(FIND_BY_CODE@) == 1,
{
    reveal_strlit("SELECT * FROM `users` WHERE `code` = ?");
    let s = FIND_BY_CODE@;
    assert(placeholders_upto(s, s.len()) == 1) by {
        reveal_with_fuel(placeholders_upto, 51);
    }
}

proof fn lemma_find_code_by_id()
    ensures
        placeholder_count(FIND_CODE_BY_ID@) == 1,
{
    reveal_strlit("SELECT `code` FROM `users` WHERE `id` = ?");
    let s = FIND_CODE_BY_ID@;
    assert(placeholders_upto(s, s.len()) == 1) by {
        reveal_with_fuel(placeholders_upto, 51);
    }
}

proof fn lemma_find_gpas()
    ensures
        placeholder_count(FIND_GPAS@) == 3,
{
    reveal_strlit("SELECT IFNULL(SUM(`submissions`.`score` * `courses`.`credit`), 0) / 100 / `credits`.`credits` AS `gpa` FROM `users` JOIN (     SELECT `users`.`id` AS `user_id`, SUM(`courses`.`credit`) AS `credits`     FROM `users`     JOIN `registrations` ON `users`.`id` = `registrations`.`user_id`     JOIN `courses` ON `registrations`.`course_id` = `courses`.`id` AND `courses`.`status` = ?     GROUP BY `users`.`id` ) AS `credits` ON `credits`.`user_id` = `users`.`id` JOIN `registrations` ON `users`.`id` = `registrations`.`user_id` JOIN `courses` ON `registrations`.`course_id` = `courses`.`id` AND `courses`.`status` = ? LEFT JOIN `classes` ON `courses`.`id` = `classes`.`course_id` LEFT JOIN `submissions` ON `users`.`id` = `submissions`.`user_id` AND `submissions`.`class_id` = `classes`.`id` WHERE `users`.`type` = ? GROUP BY `users`.`id`");
    let s = FIND_GPAS@;
    assert(placeholders_upto(s, 50) == 0) by {
        reveal_with_fuel(placeholders_upto, 51);
    }
    assert(placeholders_upto(s, 100) == 0) by {
        reveal_with_fuel(placeholders_upto, 51);
    }
    assert(placeholders_upto(s, 150) == 0) by {
        reveal_with_fuel(placeholders_upto, 51);
    }
    assert(placeholders_upto(s, 200) == 0) by {
        reveal_with_fuel(placeholders_upto, 51);
    }
    assert(placeholders_upto(s, 250) == 0) by {
        reveal_with_fuel(placeholders_upto, 51);
    }
    assert(placeholders_upto(s, 300) == 0) by {
        reveal_with_fuel(placeholders_upto, 51);
    }
    assert(placeholders_upto(s, 350) == 0) by {
        reveal_with_fuel(placeholders_upto, 51);
    }
    assert(placeholders_upto(s, 400) == 1) by {
        reveal_with_fuel(placeholders_upto, 51);
    }
    assert(placeholders_upto(s, 450) == 1) by {
        reveal_with_fuel(placeholders_upto, 51);
    }
    assert(placeholders_upto(s, 500) == 1) by {
        reveal_with_fuel(placeholders_upto, 51);
    }
    assert(placeholders_upto(s, 550) == 1) by {
        reveal_with_fuel(placeholders_upto, 51);
    }
    assert(placeholders_upto(s, 600) == 1) by {
        reveal_with_fuel(placeholders_upto, 51);
    }
    assert(placeholders_upto(s, 650) == 2) by {
        reveal_with_fuel(placeholders_upto, 51);
    }
    assert(placeholders_upto(s, 700) == 2) by {
        reveal_with_fuel(placeholders_upto, 51);
    }
    assert(placeholders_upto(s, 750) == 2) by {
        reveal_with_fuel(placeholders_upto, 51);
    }
    assert(placeholders_upto(s, 800) == 2) by {
        reveal_with_fuel(placeholders_upto, 51);
    }
    assert(placeholders_upto(s, s.len()) == 3) by {
        reveal_with_fuel(placeholders_upto, 51);
    }
}

/// Repository of users.
#[derive(Clone, Copy, Debug)]
pub struct UserRepositoryInfra {}

impl UserRepositoryInfra {
    /// User `id`.
    pub fn find_in_tx_statement(&self, id: &String) -> (st: Statement)
        ensures
            st.text() == FIND_BY_ID@,
            st.values() == seq![ArgValue::Text(id@)],
            st.well_formed(),
    {
        let mut args: Vec<SqlArg> = Vec::new();
        args.push(SqlArg::Text(id.clone()));
        let st = Statement { sql: String::from_str(FIND_BY_ID), args };
        proof {
            lemma_find_by_id();
            assert(st.values() =~= seq![ArgValue::Text(id@)]);
        }
        st
    }

    /// The user with code `code`.
    pub fn find_by_code_statement(&self, code: &String) -> (st: Statement)
        ensures
            st.text() == FIND_BY_CODE@,
            st.values() == seq![ArgValue::Text(code@)],
            st.well_formed(),
    {
        let mut args: Vec<SqlArg> = Vec::new();
        args.push(SqlArg::Text(code.clone()));
        let st = Statement { sql: String::from_str(FIND_BY_CODE), args };
        proof {
            lemma_find_by_code();
            assert(st.values() =~= seq![ArgValue::Text(code@)]);
        }
        st
    }

    /// The code of user `id`.
    pub fn find_code_by_id_statement(&self, id: &String) -> (st: Statement)
        ensures
            st.text() == FIND_CODE_BY_ID@,
            st.values() == seq![ArgValue::Text(id@)],
            st.well_formed(),
    {
        let mut args: Vec<SqlArg> = Vec::new();
        args.push(SqlArg::Text(id.clone()));
        let st = Statement { sql: String::from_str(FIND_CODE_BY_ID), args };
        proof {
            lemma_find_code_by_id();
            assert(st.values() =~= seq![ArgValue::Text(id@)]);
        }
        st
    }

    /// For each student with credits in closed courses, the sum over those courses of score times credit, divided by 100 and by the credits.
    pub fn find_gpas_group_by_user_id_statement(&self) -> (st: Statement)
        ensures
            st.text() == FIND_GPAS@,
            st.values() == seq![ArgValue::Text(CourseStatus::Closed.spec_db_name()), ArgValue::Text(CourseStatus::Closed.spec_db_name()), ArgValue::Text(UserType::Student.spec_db_name())],
            st.well_formed(),
    {
        let mut args: Vec<SqlArg> = Vec::new();
        args.push(SqlArg::Text(String::from_str(CourseStatus::Closed.db_name())));
        args.push(SqlArg::Text(String::from_str(CourseStatus::Closed.db_name())));
        args.push(SqlArg::Text(String::from_str(UserType::Student.db_name())));
        let st = Statement { sql: String::from_str(FIND_GPAS), args };
        proof {
            lemma_find_gpas();
            assert(st.values() =~= seq![ArgValue::Text(CourseStatus::Closed.spec_db_name()), ArgValue::Text(CourseStatus::Closed.spec_db_name()), ArgValue::Text(UserType::Student.spec_db_name())]);
        }
        st
    }
}

} // verus!
