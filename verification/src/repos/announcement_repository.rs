//! Announcements of courses.
use vstd::prelude::*;
use crate::error::{insert_outcome, insert_outcome_spec, DbFailure, ReposError};
use crate::models::Announcement;
use crate::statement::{placeholder_count, placeholders_upto, ArgValue, SqlArg, Statement};

verus! {

/// The text sent by `create_statement`.
pub const INSERT_ANNOUNCEMENT: &'static str = "INSERT INTO `announcements` (`id`, `course_id`, `title`, `message`) VALUES (?, ?, ?, ?)";

/// The text sent by `find_by_id_statement`.
pub const FIND_BY_ID: &'static str = r"
                SELECT
                    id as `id:AnnouncementID`,
                    course_id as `course_id:CourseID`,
                    title,
                    message
                FROM `announcements` WHERE `id` = ?
            ";

proof fn lemma_insert_announcement()
    ensures
        placeholder_count(INSERT_ANNOUNCEMENT@) == 4,
{
    reveal_strlit("INSERT INTO `announcements` (`id`, `course_id`, `title`, `message`) VALUES (?, ?, ?, ?)");
    let s = INSERT_ANNOUNCEMENT@;
    assert(placeholders_upto(s, 50) == 0) by {
        reveal_with_fuel(placeholders_upto, 51);
    }
    assert(placeholders_upto(s, s.len()) == 4) by {
        reveal_with_fuel(placeholders_upto, 51);
    }
}

proof fn lemma_find_by_id()
    ensures
        placeholder_count(FIND_BY_ID@) == 1,
{
    reveal_strlit(r"
                SELECT
                    id as `id:AnnouncementID`,
                    course_id as `course_id:CourseID`,
                    title,
                    message
                FROM `announcements` WHERE `id` = ?
            ");
    let s = FIND_BY_ID@;
    assert(placeholders_upto(s, 50) == 0) by {
        reveal_with_fuel(placeholders_upto, 51);
    }
    assert(placeholders_upto(s, 100) == 0) by {
        reveal_with_fuel(placeholders_upto, 51);
    }
    assert(placeholders_upto(s, 150) == 0) by {
        reveal_with_fuel(placeholders_upto, 51);
    }
    assert(placeholders_upto(s, 200) == 0) by {
        reveal_with_fuel(placeholders_upto, 51);
    }
    assert(placeholders_upto(s, s.len()) == 1) by {
        reveal_with_fuel(placeholders_upto, 51);
    }
}

/// Repository of announcements.
#[derive(Clone, Copy, Debug)]
pub struct AnnouncementRepositoryInfra {}

impl AnnouncementRepositoryInfra {
    /// The insert of a new announcement, its fields in column order.
    pub fn create_statement(&self, req: &Announcement) -> (st: Statement)
        ensures
            st.text() == INSERT_ANNOUNCEMENT@,
            st.values() == seq![ArgValue::Text(req.id@), ArgValue::Text(req.course_id@), ArgValue::Text(req.title@), ArgValue::Text(req.message@)],
            st.well_formed(),
    {
        let mut args: Vec<SqlArg> = Vec::new();
        args.push(SqlArg::Text(req.id.clone()));
        args.push(SqlArg::Text(req.course_id.clone()));
        args.push(SqlArg::Text(req.title.clone()));
        args.push(SqlArg::Text(req.message.clone()));
        let st = Statement { sql: String::from_str(INSERT_ANNOUNCEMENT), args };
        proof {
            lemma_insert_announcement();
            assert(st.values() =~= seq![ArgValue::Text(req.id@), ArgValue::Text(req.course_id@), ArgValue::Text(req.title@), ArgValue::Text(req.message@)]);
        }
        st
    }

    /// Announcement `id`.
    pub fn find_by_id_statement(&self, id: &String) -> (st: Statement)
        ensures
            st.text() == FIND_BY_ID@,
            st.values() == seq![ArgValue::Text(id@)],
            st.well_formed(),
    {
        let mut args: Vec<SqlArg> = Vec::new();
        args.push(SqlArg::Text(id.clone()));
        let st = Statement { sql: String::from_str(FIND_BY_ID), args };
        proof {
            lemma_find_by_id();
            assert(st.values() =~= seq![ArgValue::Text(id@)]);
        }
        st
    }

    /// What the insert of an announcement returns: success, `AnnouncementDuplicate` when the key
    /// exists, any other failure as `SqlError`.
    pub fn create_result(&self, outcome: Result<(), DbFailure>) -> (r: Result<(), ReposError>)
        ensures
            r == insert_outcome_spec(outcome, ReposError::AnnouncementDuplicate),
    {
        insert_outcome(outcome, ReposError::AnnouncementDuplicate)
    }
}

} // verus!
