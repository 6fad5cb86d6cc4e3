//! Registrations of users for courses.
use vstd::prelude::*;
use crate::statement::{placeholder_count, placeholders_upto, ArgValue, SqlArg, Statement};

verus! {

/// The text sent by `create_or_update_statement`.
pub const UPSERT_REGISTRATION: &'static str = "INSERT INTO `registrations` (`course_id`, `user_id`) VALUES (?, ?) ON DUPLICATE KEY UPDATE `course_id` = VALUES(`course_id`), `user_id` = VALUES(`user_id`)";

/// The text sent by `exist_by_user_id_and_course_id_statement`.
pub const COUNT_BY_USER_ID_AND_COURSE_ID: &'static str = "SELECT COUNT(*) FROM `registrations` WHERE `user_id` = ? AND `course_id` = ?";

/// The text sent by `find_users_by_course_id_statement`.
pub const FIND_USERS_BY_COURSE_ID: &'static str = r"
                SELECT
                  `users`.id as `id:UserID`,
                  `users`.code as `code:UserCode`,
                  `users`.name,
                  `users`.hashed_password,
                  `users`.type as `type_:UserType`
                FROM `users`
                JOIN `registrations` ON `users`.`id` = `registrations`.`user_id`
                WHERE `registrations`.`course_id` = ?
            ";

proof fn lemma_upsert_registration()
    ensures
        placeholder_count(UPSERT_REGISTRATION@) == 2,
{
    reveal_strlit("INSERT INTO `registrations` (`course_id`, `user_id`) VALUES (?, ?) ON DUPLICATE KEY UPDATE `course_id` = VALUES(`course_id`), `user_id` = VALUES(`user_id`)");
    let s = UPSERT_REGISTRATION@;
    assert(placeholders_upto(s, 50) == 0) by {
        reveal_with_fuel(placeholders_upto, 51);
    }
    assert(placeholders_upto(s, 100) == 2) by {
        reveal_with_fuel(placeholders_upto, 51);
    }
    assert(placeholders_upto(s, 150) == 2) by {
        reveal_with_fuel(placeholders_upto, 51);
    }
    assert(placeholders_upto(s, s.len()) == 2) by {
        reveal_with_fuel(placeholders_upto, 51);
    }
}

proof fn lemma_count_by_user_id_and_course_id()
    ensures
        placeholder_count(COUNT_BY_USER_ID_AND_COURSE_ID@) == 2,
{
    reveal_strlit("SELECT COUNT(*) FROM `registrations` WHERE `user_id` = ? AND `course_id` = ?");
    let s = COUNT_BY_USER_ID_AND_COURSE_ID@;
    assert(placeholders_upto(s, 50) == 0) by {
        reveal_with_fuel(placeholders_upto, 51);
    }
    assert(placeholders_upto(s, s.len()) == 2) by {
        reveal_with_fuel(placeholders_upto, 51);
    }
}

proof fn lemma_find_users_by_course_id()
    ensures
        placeholder_count(FIND_USERS_BY_COURSE_ID@) == 1,
{
    reveal_strlit(r"
                SELECT
                  `users`.id as `id:UserID`,
                  `users`.code as `code:UserCode`,
                  `users`.name,
                  `users`.hashed_password,
                  `users`.type as `type_:UserType`
                FROM `users`
                JOIN `registrations` ON `users`.`id` = `registrations`.`user_id`
                WHERE `registrations`.`course_id` = ?
            ");
    let s = FIND_USERS_BY_COURSE_ID@;
    assert(placeholders_upto(s, 50) == 0) by {
        reveal_with_fuel(placeholders_upto, 51);
    }
    assert(placeholders_upto(s, 100) == 0) by {
        reveal_with_fuel(placeholders_upto, 51);
    }
    assert(placeholders_upto(s, 150) == 0) by {
        reveal_with_fuel(placeholders_upto, 51);
    }
    assert(placeholders_upto(s, 200) == 0) by {
        reveal_with_fuel(placeholders_upto, 51);
    }
    assert(placeholders_upto(s, 250) == 0) by {
        reveal_with_fuel(placeholders_upto, 51);
    }
    assert(placeholders_upto(s, 300) == 0) by {
        reveal_with_fuel(placeholders_upto, 51);
    }
    assert(placeholders_upto(s, 350) == 0) by {
        reveal_with_fuel(placeholders_upto, 51);
    }
    assert(placeholders_upto(s, 400) == 0) by {
        reveal_with_fuel(placeholders_upto, 51);
    }
    assert(placeholders_upto(s, s.len()) == 1) by {
        reveal_with_fuel(placeholders_upto, 51);
    }
}

/// Repository of registrations.
#[derive(Clone, Copy, Debug)]
pub struct RegistrationRepositoryInfra {}

impl RegistrationRepositoryInfra {
    /// Registering user `user_id` for course `course_id`, idempotently; the course is bound first.
    pub fn create_or_update_statement(&self, user_id: &String, course_id: &String) -> (st: Statement)
        ensures
            st.text() == UPSERT_REGISTRATION@,
            st.values() == seq![ArgValue::Text(course_id@), ArgValue::Text(user_id@)],
            st.well_formed(),
    {
        let mut args: Vec<SqlArg> = Vec::new();
        args.push(SqlArg::Text(course_id.clone()));
        args.push(SqlArg::Text(user_id.clone()));
        let st = Statement { sql: String::from_str(UPSERT_REGISTRATION), args };
        proof {
            lemma_upsert_registration();
            assert(st.values() =~= seq![ArgValue::Text(course_id@), ArgValue::Text(user_id@)]);
        }
        st
    }

    /// The number of registrations of user `user_id` for course `course_id`.
    pub fn exist_by_user_id_and_course_id_statement(&self, user_id: &String, course_id: &String) -> (st: Statement)
        ensures
            st.text() == COUNT_BY_USER_ID_AND_COURSE_ID@,
            st.values() == seq![ArgValue::Text(user_id@), ArgValue::Text(course_id@)],
            st.well_formed(),
    {
        let mut args: Vec<SqlArg> = Vec::new();
        args.push(SqlArg::Text(user_id.clone()));
        args.push(SqlArg::Text(course_id.clone()));
        let st = Statement { sql: String::from_str(COUNT_BY_USER_ID_AND_COURSE_ID), args };
        proof {
            lemma_count_by_user_id_and_course_id();
            assert(st.values() =~= seq![ArgValue::Text(user_id@), ArgValue::Text(course_id@)]);
        }
        st
    }

    /// The users registered for course `course_id`.
    pub fn find_users_by_course_id_statement(&self, course_id: &String) -> (st: Statement)
        ensures
            st.text() == FIND_USERS_BY_COURSE_ID@,
            st.values() == seq![ArgValue::Text(course_id@)],
            st.well_formed(),
    {
        let mut args: Vec<SqlArg> = Vec::new();
        args.push(SqlArg::Text(course_id.clone()));
        let st = Statement { sql: String::from_str(FIND_USERS_BY_COURSE_ID), args };
        proof {
            lemma_find_users_by_course_id();
            assert(st.values() =~= seq![ArgValue::Text(course_id@)]);
        }
        st
    }

    /// The user is registered when at least one registration row exists.
    pub fn exist_by_user_id_and_course_id_result(&self, count: i64) -> (exists: bool)
        ensures
            exists == (count != 0),
    {
        count != 0
    }
}

} // verus!
