//! Classes, the parts of a course.
use vstd::prelude::*;
use crate::error::{insert_outcome, insert_outcome_spec, DbFailure, ReposError};
use crate::models::CreateClass;
use crate::statement::{placeholder_count, placeholders_upto, ArgValue, SqlArg, Statement};

verus! {

/// The text sent by `for_update_by_id_statement`.
pub const COUNT_BY_ID_FOR_UPDATE: &'static str = "SELECT COUNT(*) FROM `classes` WHERE `id` = ? FOR UPDATE";

/// The text sent by `create_statement`.
pub const INSERT_CLASS: &'static str = "INSERT INTO `classes` (`id`, `course_id`, `part`, `title`, `description`) VALUES (?, ?, ?, ?, ?)";

/// The text sent by `update_submission_closed_by_id_statement`.
pub const CLOSE_SUBMISSION_BY_ID: &'static str = "UPDATE `classes` SET `submission_closed` = true WHERE `id` = ?";

/// The text sent by `find_submission_closed_by_id_with_shared_lock_statement`.
pub const FIND_SUBMISSION_CLOSED_BY_ID_FOR_SHARE: &'static str = "SELECT `submission_closed` AS `s:bool` FROM `classes` WHERE `id` = ? FOR SHARE";

/// The text sent by `find_by_course_id_and_part_statement`.
pub const FIND_BY_COURSE_ID_AND_PART: &'static str = r"
                SELECT
                  id,
                  course_id,
                  part,
                  title,
                  description,
                  submission_closed AS `submission_closed:bool`
                FROM `classes`
                WHERE `course_id` = ? AND `part` = ?
            ";

/// The text sent by `find_all_by_course_id_statement`.
pub const FIND_ALL_BY_COURSE_ID: &'static str = r"
            SELECT
              id,
              course_id,
              part,
              title,
              description,
              submission_closed AS `submission_closed:bool`
            FROM `classes`
            WHERE `course_id` = ?
            ORDER BY `part` DESC
        ";

/// The text sent by `find_all_with_submitted_by_user_id_and_course_id_statement`.
pub const FIND_ALL_WITH_SUBMITTED: &'static str = r"
                SELECT
                  `classes`.id,
                  `classes`.course_id,
                  `classes`.part,
                  `classes`.title,
                  `classes`.description,
                  `classes`.submission_closed AS `submission_closed:bool`,
                  `submissions`.`user_id` IS NOT NULL AS `submitted:bool`
                FROM `classes`
                LEFT JOIN `submissions` ON `classes`.`id` = `submissions`.`class_id` AND `submissions`.`user_id` = ?
                WHERE `classes`.`course_id` = ?
                ORDER BY `classes`.`part`
            ";

proof fn lemma_count_by_id_for_update()
    ensures
        placeholder_count(COUNT_BY_ID_FOR_UPDATE@) == 1,
{
    reveal_strlit("SELECT COUNT(*) FROM `classes` WHERE `id` = ? FOR UPDATE");
    let s = COUNT_BY_ID_FOR_UPDATE@;
    assert(placeholders_upto(s, 50) == 1) by {
        reveal_with_fuel(placeholders_upto, 51);
    }
    assert(placeholders_upto(s, s.len()) == 1) by {
        reveal_with_fuel(placeholders_upto, 51);
    }
}

proof fn lemma_insert_class()
    ensures
        placeholder_count(INSERT_CLASS@) == 5,
{
    reveal_strlit("INSERT INTO `classes` (`id`, `course_id`, `part`, `title`, `description`) VALUES (?, ?, ?, ?, ?)");
    let s = INSERT_CLASS@;
    assert(placeholders_upto(s, 50) == 0) by {
        reveal_with_fuel(placeholders_upto, 51);
    }
    assert(placeholders_upto(s, s.len()) == 5) by {
        reveal_with_fuel(placeholders_upto, 51);
    }
}

proof fn lemma_close_submission_by_id()
    ensures
        placeholder_count(CLOSE_SUBMISSION_BY_ID@) == 1,
{
    reveal_strlit("UPDATE `classes` SET `submission_closed` = true WHERE `id` = ?");
    let s = CLOSE_SUBMISSION_BY_ID@;
    assert(placeholders_upto(s, 50) == 0) by {
        reveal_with_fuel(placeholders_upto, 51);
    }
    assert(placeholders_upto(s, s.len()) == 1) by {
        reveal_with_fuel(placeholders_upto, 51);
    }
}

proof fn lemma_find_submission_closed_by_id_for_share()
    ensures
        placeholder_count(FIND_SUBMISSION_CLOSED_BY_ID_FOR_SHARE@) == 1,
{
    reveal_strlit("SELECT `submission_closed` AS `s:bool` FROM `classes` WHERE `id` = ? FOR SHARE");
    let s = FIND_SUBMISSION_CLOSED_BY_ID_FOR_SHARE@;
    assert(placeholders_upto(s, 50) == 0) by {
        reveal_with_fuel(placeholders_upto, 51);
    }
    assert(placeholders_upto(s, s.len()) == 1) by {
        reveal_with_fuel(placeholders_upto, 51);
    }
}

proof fn lemma_find_by_course_id_and_part()
    ensures
        placeholder_count(FIND_BY_COURSE_ID_AND_PART@) == 2,
{
    reveal_strlit(r"
                SELECT
                  id,
                  course_id,
                  part,
                  title,
                  description,
                  submission_closed AS `submission_closed:bool`
                FROM `classes`
                WHERE `course_id` = ? AND `part` = ?
            ");
    let s = FIND_BY_COURSE_ID_AND_PART@;
    assert(placeholders_upto(s, 50) == 0) by {
        reveal_with_fuel(placeholders_upto, 51);
    }
    assert(placeholders_upto(s, 100) == 0) by {
        reveal_with_fuel(placeholders_upto, 51);
    }
    assert(placeholders_upto(s, 150) == 0) by {
        reveal_with_fuel(placeholders_upto, 51);
    }
    assert(placeholders_upto(s, 200) == 0) by {
        reveal_with_fuel(placeholders_upto, 51);
    }
    assert(placeholders_upto(s, 250) == 0) by {
        reveal_with_fuel(placeholders_upto, 51);
    }
    assert(placeholders_upto(s, 300) == 1) by {
        reveal_with_fuel(placeholders_upto, 51);
    }
    assert(placeholders_upto(s, s.len()) == 2) by {
        reveal_with_fuel(placeholders_upto, 51);
    }
}

proof fn lemma_find_all_by_course_id()
    ensures
        placeholder_count(FIND_ALL_BY_COURSE_ID@) == 1,
{
    reveal_strlit(r"
            SELECT
              id,
              course_id,
              part,
              title,
              description,
              submission_closed AS `submission_closed:bool`
            FROM `classes`
            WHERE `course_id` = ?
            ORDER BY `part` DESC
        ");
    let s = FIND_ALL_BY_COURSE_ID@;
    assert(placeholders_upto(s, 50) == 0) by {
        reveal_with_fuel(placeholders_upto, 51);
    }
    assert(placeholders_upto(s, 100) == 0) by {
        reveal_with_fuel(placeholders_upto, 51);
    }
    assert(placeholders_upto(s, 150) == 0) by {
        reveal_with_fuel(placeholders_upto, 51);
    }
    assert(placeholders_upto(s, 200) == 0) by {
        reveal_with_fuel(placeholders_upto, 51);
    }
    assert(placeholders_upto(s, 250) == 0) by {
        reveal_with_fuel(placeholders_upto, 51);
    }
    assert(placeholders_upto(s, s.len()) == 1) by {
        reveal_with_fuel(placeholders_upto, 51);
    }
}

proof fn lemma_find_all_with_submitted()
    ensures
        placeholder_count(FIND_ALL_WITH_SUBMITTED@) == 2,
{
    reveal_strlit(r"
                SELECT
                  `classes`.id,
                  `classes`.course_id,
                  `classes`.part,
                  `classes`.title,
                  `classes`.description,
                  `classes`.submission_closed AS `submission_closed:bool`,
                  `submissions`.`user_id` IS NOT NULL AS `submitted:bool`
                FROM `classes`
                LEFT JOIN `submissions` ON `classes`.`id` = `submissions`.`class_id` AND `submissions`.`user_id` = ?
                WHERE `classes`.`course_id` = ?
                ORDER BY `classes`.`part`
            ");
    let s = FIND_ALL_WITH_SUBMITTED@;
    assert(placeholders_upto(s, 50) == 0) by {
        reveal_with_fuel(placeholders_upto, 51);
    }
    assert(placeholders_upto(s, 100) == 0) by {
        reveal_with_fuel(placeholders_upto, 51);
    }
    assert(placeholders_upto(s, 150) == 0) by {
        reveal_with_fuel(placeholders_upto, 51);
    }
    assert(placeholders_upto(s, 200) == 0) by {
        reveal_with_fuel(placeholders_upto, 51);
    }
    assert(placeholders_upto(s, 250) == 0) by {
        reveal_with_fuel(placeholders_upto, 51);
    }
    assert(placeholders_upto(s, 300) == 0) by {
        reveal_with_fuel(placeholders_upto, 51);
    }
    assert(placeholders_upto(s, 350) == 0) by {
        reveal_with_fuel(placeholders_upto, 51);
    }
    assert(placeholders_upto(s, 400) == 0) by {
        reveal_with_fuel(placeholders_upto, 51);
    }
    assert(placeholders_upto(s, 450) == 0) by {
        reveal_with_fuel(placeholders_upto, 51);
    }
    assert(placeholders_upto(s, 500) == 0) by {
        reveal_with_fuel(placeholders_upto, 51);
    }
    assert(placeholders_upto(s, 550) == 2) by {
        reveal_with_fuel(placeholders_upto, 51);
    }
    assert(placeholders_upto(s, 600) == 2) by {
        reveal_with_fuel(placeholders_upto, 51);
    }
    assert(placeholders_upto(s, s.len()) == 2) by {
        reveal_with_fuel(placeholders_upto, 51);
    }
}

/// Repository of classes.
#[derive(Clone, Copy, Debug)]
pub struct ClassRepositoryInfra {}

impl ClassRepositoryInfra {
    /// The number of classes with id `id`, locking them for update.
    pub fn for_update_by_id_statement(&self, id: &String) -> (st: Statement)
        ensures
            st.text() == COUNT_BY_ID_FOR_UPDATE@,
            st.values() == seq![ArgValue::Text(id@)],
            st.well_formed(),
    {
        let mut args: Vec<SqlArg> = Vec::new();
        args.push(SqlArg::Text(id.clone()));
        let st = Statement { sql: String::from_str(COUNT_BY_ID_FOR_UPDATE), args };
        proof {
            lemma_count_by_id_for_update();
            assert(st.values() =~= seq![ArgValue::Text(id@)]);
        }
        st
    }

    /// The insert of a new class, its fields in column order.
    pub fn create_statement(&self, class: &CreateClass) -> (st: Statement)
        ensures
            st.text() == INSERT_CLASS@,
            st.values() == seq![ArgValue::Text(class.id@), ArgValue::Text(class.course_id@), ArgValue::U8(class.part), ArgValue::Text(class.title@), ArgValue::Text(class.description@)],
            st.well_formed(),
    {
        let mut args: Vec<SqlArg> = Vec::new();
        args.push(SqlArg::Text(class.id.clone()));
        args.push(SqlArg::Text(class.course_id.clone()));
        args.push(SqlArg::U8(class.part));
        args.push(SqlArg::Text(class.title.clone()));
        args.push(SqlArg::Text(class.description.clone()));
        let st = Statement { sql: String::from_str(INSERT_CLASS), args };
        proof {
            lemma_insert_class();
            assert(st.values() =~= seq![ArgValue::Text(class.id@), ArgValue::Text(class.course_id@), ArgValue::U8(class.part), ArgValue::Text(class.title@), ArgValue::Text(class.description@)]);
        }
        st
    }

    /// Closing the submissions of class `id`.
    pub fn update_submission_closed_by_id_statement(&self, id: &String) -> (st: Statement)
        ensures
            st.text() == CLOSE_SUBMISSION_BY_ID@,
            st.values() == seq![ArgValue::Text(id@)],
            st.well_formed(),
    {
        let mut args: Vec<SqlArg> = Vec::new();
        args.push(SqlArg::Text(id.clone()));
        let st = Statement { sql: String::from_str(CLOSE_SUBMISSION_BY_ID), args };
        proof {
            lemma_close_submission_by_id();
            assert(st.values() =~= seq![ArgValue::Text(id@)]);
        }
        st
    }

    /// Whether the submissions of class `id` are closed, read under a shared lock.
    pub fn find_submission_closed_by_id_with_shared_lock_statement(&self, id: &String) -> (st: Statement)
        ensures
            st.text() == FIND_SUBMISSION_CLOSED_BY_ID_FOR_SHARE@,
            st.values() == seq![ArgValue::Text(id@)],
            st.well_formed(),
    {
        let mut args: Vec<SqlArg> = Vec::new();
        args.push(SqlArg::Text(id.clone()));
        let st = Statement { sql: String::from_str(FIND_SUBMISSION_CLOSED_BY_ID_FOR_SHARE), args };
        proof {
            lemma_find_submission_closed_by_id_for_share();
            assert(st.values() =~= seq![ArgValue::Text(id@)]);
        }
        st
    }

    /// The class of course `course_id` with number `part`.
    pub fn find_by_course_id_and_part_statement(&self, course_id: &String, part: u8) -> (st: Statement)
        ensures
            st.text() == FIND_BY_COURSE_ID_AND_PART@,
            st.values() == seq![ArgValue::Text(course_id@), ArgValue::U8(part)],
            st.well_formed(),
    {
        let mut args: Vec<SqlArg> = Vec::new();
        args.push(SqlArg::Text(course_id.clone()));
        args.push(SqlArg::U8(part));
        let st = Statement { sql: String::from_str(FIND_BY_COURSE_ID_AND_PART), args };
        proof {
            lemma_find_by_course_id_and_part();
            assert(st.values() =~= seq![ArgValue::Text(course_id@), ArgValue::U8(part)]);
        }
        st
    }

    /// The classes of course `course_id`, the latest part first.
    pub fn find_all_by_course_id_statement(&self, course_id: &String) -> (st: Statement)
        ensures
            st.text() == FIND_ALL_BY_COURSE_ID@,
            st.values() == seq![ArgValue::Text(course_id@)],
            st.well_formed(),
    {
        let mut args: Vec<SqlArg> = Vec::new();
        args.push(SqlArg::Text(course_id.clone()));
        let st = Statement { sql: String::from_str(FIND_ALL_BY_COURSE_ID), args };
        proof {
            lemma_find_all_by_course_id();
            assert(st.values() =~= seq![ArgValue::Text(course_id@)]);
        }
        st
    }

    /// The classes of course `course_id` in part order, each with whether user `user_id` has submitted to it; the user is bound first.
    pub fn find_all_with_submitted_by_user_id_and_course_id_statement(&self, user_id: &String, course_id: &String) -> (st: Statement)
        ensures
            st.text() == FIND_ALL_WITH_SUBMITTED@,
            st.values() == seq![ArgValue::Text(user_id@), ArgValue::Text(course_id@)],
            st.well_formed(),
    {
        let mut args: Vec<SqlArg> = Vec::new();
        args.push(SqlArg::Text(user_id.clone()));
        args.push(SqlArg::Text(course_id.clone()));
        let st = Statement { sql: String::from_str(FIND_ALL_WITH_SUBMITTED), args };
        proof {
            lemma_find_all_with_submitted();
            assert(st.values() =~= seq![ArgValue::Text(user_id@), ArgValue::Text(course_id@)]);
        }
        st
    }

    /// What the insert of a class returns: success, `ClassDuplicate` when the key
    /// exists, any other failure as `SqlError`.
    pub fn create_result(&self, outcome: Result<(), DbFailure>) -> (r: Result<(), ReposError>)
        ensures
            r == insert_outcome_spec(outcome, ReposError::ClassDuplicate),
    {
        insert_outcome(outcome, ReposError::ClassDuplicate)
    }

    /// The locked class exists when exactly one row has its id.
    pub fn for_update_by_id_result(&self, count: i64) -> (exists: bool)
        ensures
            exists == (count == 1),
    {
        count == 1
    }
}

} // verus!
