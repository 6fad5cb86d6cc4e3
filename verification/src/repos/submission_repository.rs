//! Submitted files and their scores.
use vstd::prelude::*;
use crate::models::CreateSubmission;
use crate::statement::{placeholder_count, placeholders_upto, ArgValue, SqlArg, Statement};

verus! {

/// The text sent by `create_or_update_statement`.
pub const UPSERT_SUBMISSION: &'static str = "INSERT INTO `submissions` (`user_id`, `class_id`, `file_name`) VALUES (?, ?, ?) ON DUPLICATE KEY UPDATE `file_name` = VALUES(`file_name`)";

/// The text sent by `count_by_class_id_statement`.
pub const COUNT_BY_CLASS_ID: &'static str = "SELECT COUNT(*) FROM `submissions` WHERE `class_id` = ?";

/// The text sent by `update_score_by_user_code_and_class_id_statement`.
pub const UPDATE_SCORE: &'static str = "UPDATE `submissions` JOIN `users` ON `users`.`id` = `submissions`.`user_id` SET `score` = ? WHERE `users`.`code` = ? AND `class_id` = ?";

/// The text sent by `find_score_by_class_id_and_user_id_statement`.
pub const FIND_SCORE: &'static str = r"
                SELECT `submissions`.`score` FROM `submissions`
                WHERE `user_id` = ? AND `class_id` = ?
            ";

/// The text sent by `find_all_with_user_code_by_class_id_statement`.
pub const FIND_ALL_WITH_USER_CODE_BY_CLASS_ID: &'static str = r"
                SELECT
                  `submissions`.`user_id` as `user_id:UserID`,
                  `users`.`code` AS `user_code:UserCode`,
                  `submissions`.`file_name`
                FROM `submissions`
                JOIN `users` ON `users`.`id` = `submissions`.`user_id`
                WHERE `class_id` = ?
            ";

/// The text sent by `find_all_by_class_id_statement`.
pub const FIND_ALL_BY_CLASS_ID: &'static str = "SELECT `submissions`.`user_id`, `submissions`.`file_name`, `users`.`code` AS `user_code` FROM `submissions` JOIN `users` ON `users`.`id` = `submissions`.`user_id` WHERE `class_id` = ?";

proof fn lemma_upsert_submission()
    ensures
        placeholder_count(UPSERT_SUBMISSION@) == 3,
{
    reveal_strlit("INSERT INTO `submissions` (`user_id`, `class_id`, `file_name`) VALUES (?, ?, ?) ON DUPLICATE KEY UPDATE `file_name` = VALUES(`file_name`)");
    let s = UPSERT_SUBMISSION@;
    assert(placeholders_upto(s, 50) == 0) by {
        reveal_with_fuel(placeholders_upto, 51);
    }
    assert(placeholders_upto(s, 100) == 3) by {
        reveal_with_fuel(placeholders_upto, 51);
    }
    assert(placeholders_upto(s, s.len()) == 3) by {
        reveal_with_fuel(placeholders_upto, 51);
    }
}

proof fn lemma_count_by_class_id()
    ensures
        placeholder_count(COUNT_BY_CLASS_ID@) == 1,
{
    reveal_strlit("SELECT COUNT(*) FROM `submissions` WHERE `class_id` = ?");
    let s = COUNT_BY_CLASS_ID@;
    assert(placeholders_upto(s, 50) == 0) by {
        reveal_with_fuel(placeholders_upto, 51);
    }
    assert(placeholders_upto(s, s.len()) == 1) by {
        reveal_with_fuel(placeholders_upto, 51);
    }
}

proof fn lemma_update_score()
    ensures
        placeholder_count(UPDATE_SCORE@) == 3,
{
    reveal_strlit("UPDATE `submissions` JOIN `users` ON `users`.`id` = `submissions`.`user_id` SET `score` = ? WHERE `users`.`code` = ? AND `class_id` = ?");
    let s = UPDATE_SCORE@;
    assert(placeholders_upto(s, 50) == 0) by {
        reveal_with_fuel(placeholders_upto, 51);
    }
    assert(placeholders_upto(s, 100) == 1) by {
        reveal_with_fuel(placeholders_upto, 51);
    }
    assert(placeholders_upto(s, s.len()) == 3) by {
        reveal_with_fuel(placeholders_upto, 51);
    }
}

proof fn lemma_find_score()
    ensures
        placeholder_count(FIND_SCORE@) == 2,
{
    reveal_strlit(r"
                SELECT `submissions`.`score` FROM `submissions`
                WHERE `user_id` = ? AND `class_id` = ?
            ");
    let s = FIND_SCORE@;
    assert(placeholders_upto(s, 50) == 0) by {
        reveal_with_fuel(placeholders_upto, 51);
    }
    assert(placeholders_upto(s, 100) == 1) by {
        reveal_with_fuel(placeholders_upto, 51);
    }
    assert(placeholders_upto(s, s.len()) == 2) by {
        reveal_with_fuel(placeholders_upto, 51);
    }
}

proof fn lemma_find_all_with_user_code_by_class_id()
    ensures
        placeholder_count(FIND_ALL_WITH_USER_CODE_BY_CLASS_ID@) == 1,
{
    reveal_strlit(r"
                SELECT
                  `submissions`.`user_id` as `user_id:UserID`,
                  `users`.`code` AS `user_code:UserCode`,
                  `submissions`.`file_name`
                FROM `submissions`
                JOIN `users` ON `users`.`id` = `submissions`.`user_id`
                WHERE `class_id` = ?
            ");
    let s = FIND_ALL_WITH_USER_CODE_BY_CLASS_ID@;
    assert(placeholders_upto(s, 50) == 0) by {
        reveal_with_fuel(placeholders_upto, 51);
    }
    assert(placeholders_upto(s, 100) == 0) by {
        reveal_with_fuel(placeholders_upto, 51);
    }
    assert(placeholders_upto(s, 150) == 0) by {
        reveal_with_fuel(placeholders_upto, 51);
    }
    assert(placeholders_upto(s, 200) == 0) by {
        reveal_with_fuel(placeholders_upto, 51);
    }
    assert(placeholders_upto(s, 250) == 0) by {
        reveal_with_fuel(placeholders_upto, 51);
    }
    assert(placeholders_upto(s, 300) == 0) by {
        reveal_with_fuel(placeholders_upto, 51);
    }
    assert(placeholders_upto(s, s.len()) == 1) by {
        reveal_with_fuel(placeholders_upto, 51);
    }
}

proof fn lemma_find_all_by_class_id()
    ensures
        placeholder_count(FIND_ALL_BY_CLASS_ID@) == 1,
{
    reveal_strlit("SELECT `submissions`.`user_id`, `submissions`.`file_name`, `users`.`code` AS `user_code` FROM `submissions` JOIN `users` ON `users`.`id` = `submissions`.`user_id` WHERE `class_id` = ?");
    let s = FIND_ALL_BY_CLASS_ID@;
    assert(placeholders_upto(s, 50) == 0) by {
        reveal_with_fuel(placeholders_upto, 51);
    }
    assert(placeholders_upto(s, 100) == 0) by {
        reveal_with_fuel(placeholders_upto, 51);
    }
    assert(placeholders_upto(s, 150) == 0) by {
        reveal_with_fuel(placeholders_upto, 51);
    }
    assert(placeholders_upto(s, s.len()) == 1) by {
        reveal_with_fuel(placeholders_upto, 51);
    }
}

/// Repository of submissions.
#[derive(Clone, Copy, Debug)]
pub struct SubmissionRepositoryInfra {}

impl SubmissionRepositoryInfra {
    /// Recording a submission; a second one by the same user for the same class replaces the file name.
    pub fn create_or_update_statement(&self, submission: &CreateSubmission) -> (st: Statement)
        ensures
            st.text() == UPSERT_SUBMISSION@,
            st.values() == seq![ArgValue::Text(submission.user_id@), ArgValue::Text(submission.class_id@), ArgValue::Text(submission.file_name@)],
            st.well_formed(),
    {
        let mut args: Vec<SqlArg> = Vec::new();
        args.push(SqlArg::Text(submission.user_id.clone()));
        args.push(SqlArg::Text(submission.class_id.clone()));
        args.push(SqlArg::Text(submission.file_name.clone()));
        let st = Statement { sql: String::from_str(UPSERT_SUBMISSION), args };
        proof {
            lemma_upsert_submission();
            assert(st.values() =~= seq![ArgValue::Text(submission.user_id@), ArgValue::Text(submission.class_id@), ArgValue::Text(submission.file_name@)]);
        }
        st
    }

    /// The number of submissions to class `class_id`.
    pub fn count_by_class_id_statement(&self, class_id: &String) -> (st: Statement)
        ensures
            st.text() == COUNT_BY_CLASS_ID@,
            st.values() == seq![ArgValue::Text(class_id@)],
            st.well_formed(),
    {
        let mut args: Vec<SqlArg> = Vec::new();
        args.push(SqlArg::Text(class_id.clone()));
        let st = Statement { sql: String::from_str(COUNT_BY_CLASS_ID), args };
        proof {
            lemma_count_by_class_id();
            assert(st.values() =~= seq![ArgValue::Text(class_id@)]);
        }
        st
    }

    /// Setting the score of the submission of the user with code `user_code` to class `class_id`; the score is bound first.
    pub fn update_score_by_user_code_and_class_id_statement(&self, user_code: &String, class_id: &String, score: i64) -> (st: Statement)
        ensures
            st.text() == UPDATE_SCORE@,
            st.values() == seq![ArgValue::I64(score), ArgValue::Text(user_code@), ArgValue::Text(class_id@)],
            st.well_formed(),
    {
        let mut args: Vec<SqlArg> = Vec::new();
        args.push(SqlArg::I64(score));
        args.push(SqlArg::Text(user_code.clone()));
        args.push(SqlArg::Text(class_id.clone()));
        let st = Statement { sql: String::from_str(UPDATE_SCORE), args };
        proof {
            lemma_update_score();
            assert(st.values() =~= seq![ArgValue::I64(score), ArgValue::Text(user_code@), ArgValue::Text(class_id@)]);
        }
        st
    }

    /// The score of user `user_id` in class `class_id`; the user is bound first.
    pub fn find_score_by_class_id_and_user_id_statement(&self, class_id: &String, user_id: &String) -> (st: Statement)
        ensures
            st.text() == FIND_SCORE@,
            st.values() == seq![ArgValue::Text(user_id@), ArgValue::Text(class_id@)],
            st.well_formed(),
    {
        let mut args: Vec<SqlArg> = Vec::new();
        args.push(SqlArg::Text(user_id.clone()));
        args.push(SqlArg::Text(class_id.clone()));
        let st = Statement { sql: String::from_str(FIND_SCORE), args };
        proof {
            lemma_find_score();
            assert(st.values() =~= seq![ArgValue::Text(user_id@), ArgValue::Text(class_id@)]);
        }
        st
    }

    /// The submissions to class `class_id`, each with the code of its user.
    pub fn find_all_with_user_code_by_class_id_statement(&self, class_id: &String) -> (st: Statement)
        ensures
            st.text() == FIND_ALL_WITH_USER_CODE_BY_CLASS_ID@,
            st.values() == seq![ArgValue::Text(class_id@)],
            st.well_formed(),
    {
        let mut args: Vec<SqlArg> = Vec::new();
        args.push(SqlArg::Text(class_id.clone()));
        let st = Statement { sql: String::from_str(FIND_ALL_WITH_USER_CODE_BY_CLASS_ID), args };
        proof {
            lemma_find_all_with_user_code_by_class_id();
            assert(st.values() =~= seq![ArgValue::Text(class_id@)]);
        }
        st
    }

    /// The submissions to class `class_id` with user id, file name and user code.
    pub fn find_all_by_class_id_statement(&self, class_id: &String) -> (st: Statement)
        ensures
            st.text() == FIND_ALL_BY_CLASS_ID@,
            st.values() == seq![ArgValue::Text(class_id@)],
            st.well_formed(),
    {
        let mut args: Vec<SqlArg> = Vec::new();
        args.push(SqlArg::Text(class_id.clone()));
        let st = Statement { sql: String::from_str(FIND_ALL_BY_CLASS_ID), args };
        proof {
            lemma_find_all_by_class_id();
            assert(st.values() =~= seq![ArgValue::Text(class_id@)]);
        }
        st
    }

    /// The score of the submission: none without a submission row, none for
    /// a submission not scored yet, else its score.
    pub fn find_score_by_class_id_and_user_id_result(&self, row: Option<Option<u8>>) -> (score: Option<u8>)
        ensures
            score == match row {
                Some(Some(s)) => Some(s),
                _ => None::<u8>,
            },
    {
        match row {
            None => None,
            Some(Some(s)) => Some(s),
            Some(None) => None,
        }
    }
}

} // verus!
