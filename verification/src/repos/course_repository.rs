//! Courses: creation, search, status and lookups.
use vstd::prelude::*;
use crate::error::{insert_outcome, insert_outcome_spec, DbFailure, ReposError};
use crate::models::{CourseStatus, CreateCourse, SearchCoursesQuery};
use crate::repos::course_search::{
    basic_conditions_sql, basic_conditions_values, course_search_sql, course_search_values,
    keyword_words, keywords_condition, lemma_course_search_well_formed, lemma_keywords_step,
    like_values, push_basic_conditions, push_keywords_condition, SEARCH_FROM, SEARCH_LIMIT,
    SEARCH_ORDER, SEARCH_SELECT, SEARCH_STATUS, SEARCH_WHERE,
};
use crate::statement::{
    lemma_text_if_append, lemma_value_if_append, placeholder_count, placeholders_upto,
    push_condition, text_if, value_if, values_of, ArgValue, SqlArg, Statement,
};

verus! {

/// The text sent by `create_statement`.
pub const INSERT_COURSE: &'static str = "INSERT INTO `courses` (`id`, `code`, `type`, `name`, `description`, `credit`, `period`, `day_of_week`, `teacher_id`, `keywords`) VALUES (?, ?, ?, ?, ?, ?, ?, ?, ?, ?)";

/// The text sent by `find_status_for_share_lock_by_id_statement`.
pub const FIND_STATUS_FOR_SHARE_LOCK_BY_ID: &'static str = "SELECT `status` AS `status:CourseStatus` FROM `courses` WHERE `id` = ? FOR SHARE";

/// The text sent by `find_for_share_lock_by_id_statement`.
pub const FIND_FOR_SHARE_LOCK_BY_ID: &'static str = "SELECT * FROM `courses` WHERE `id` = ? FOR SHARE";

/// The text sent by `exist_by_id_statement`.
pub const COUNT_BY_ID: &'static str = "SELECT COUNT(*) FROM `courses` WHERE `id` = ?";

/// The text sent by `for_update_by_id_statement`.
pub const COUNT_BY_ID_FOR_UPDATE: &'static str = "SELECT COUNT(*) FROM `courses` WHERE `id` = ? FOR UPDATE";

/// The text sent by `update_status_by_id_statement`.
pub const UPDATE_STATUS_BY_ID: &'static str = "UPDATE `courses` SET `status` = ? WHERE `id` = ?";

/// The text sent by `find_by_code_statement`.
pub const FIND_BY_CODE: &'static str = r"
                SELECT
                   id as `id:CourseID`,
                   code as `code:CourseCode`,
                   type as `type_:CourseType`,
                   name,
                   description,
                   credit,
                   period,
                   day_of_week as `day_of_week:DayOfWeek`,
                   teacher_id as `teacher_id:UserID`,
                   keywords,
                   status as `status:CourseStatus`
                FROM `courses`
                WHERE `code` = ?";

/// The text sent by `find_with_teacher_by_id_statement`.
pub const FIND_WITH_TEACHER_BY_ID: &'static str = r"
                SELECT
                   courses.id as `id:CourseID`,
                   courses.code as `code:CourseCode`,
                   courses.type as `type_`,
                   courses.name,
                   description,
                   credit,
                   period,
                   day_of_week as `day_of_week:DayOfWeek`,
                   teacher_id as `teacher_id:UserID`,
                   keywords,
                   status as `status:CourseStatus`,
                    `users`.`name` AS `teacher`
                FROM `courses`
                JOIN `users` ON `courses`.`teacher_id` = `users`.`id`
                WHERE `courses`.`id` = ?
            ";

proof fn lemma_insert_course()
    ensures
        placeholder_count(INSERT_COURSE@) == 10,
{
    reveal_strlit("INSERT INTO `courses` (`id`, `code`, `type`, `name`, `description`, `credit`, `period`, `day_of_week`, `teacher_id`, `keywords`) VALUES (?, ?, ?, ?, ?, ?, ?, ?, ?, ?)");
    let s = INSERT_COURSE@;
    assert(placeholders_upto(s, 50) == 0) by {
        reveal_with_fuel(placeholders_upto, 51);
    }
    assert(placeholders_upto(s, 100) == 0) by {
        reveal_with_fuel(placeholders_upto, 51);
    }
    assert(placeholders_upto(s, 150) == 5) by {
        reveal_with_fuel(placeholders_upto, 51);
    }
    assert(placeholders_upto(s, s.len()) == 10) by {
        reveal_with_fuel(placeholders_upto, 51);
    }
}

proof fn lemma_find_status_for_share_lock_by_id()
    ensures
        placeholder_count(FIND_STATUS_FOR_SHARE_LOCK_BY_ID@) == 1,
{
    reveal_strlit("SELECT `status` AS `status:CourseStatus` FROM `courses` WHERE `id` = ? FOR SHARE");
    let s = FIND_STATUS_FOR_SHARE_LOCK_BY_ID@;
    assert(placeholders_upto(s, 50) == 0) by {
        reveal_with_fuel(placeholders_upto, 51);
    }
    assert(placeholders_upto(s, s.len()) == 1) by {
        reveal_with_fuel(placeholders_upto, 51);
    }
}

proof fn lemma_find_for_share_lock_by_id()
    ensures
        placeholder_count(FIND_FOR_SHARE_LOCK_BY_ID@) == 1,
{
    reveal_strlit("SELECT * FROM `courses` WHERE `id` = ? FOR SHARE");
    let s = FIND_FOR_SHARE_LOCK_BY_ID@;
    assert(placeholders_upto(s, s.len()) == 1) by {
        reveal_with_fuel(placeholders_upto, 51);
    }
}

proof fn lemma_count_by_id()
    ensures
        placeholder_count(COUNT_BY_ID@) == 1,
{
    reveal_strlit("SELECT COUNT(*) FROM `courses` WHERE `id` = ?");
    let s = COUNT_BY_ID@;
    assert(placeholders_upto(s, s.len()) == 1) by {
        reveal_with_fuel(placeholders_upto, 51);
    }
}

proof fn lemma_count_by_id_for_update()
    ensures
        placeholder_count(COUNT_BY_ID_FOR_UPDATE@) == 1,
{
    reveal_strlit("SELECT COUNT(*) FROM `courses` WHERE `id` = ? FOR UPDATE");
    let s = COUNT_BY_ID_FOR_UPDATE@;
    assert(placeholders_upto(s, 50) == 1) by {
        reveal_with_fuel(placeholders_upto, 51);
    }
    assert(placeholders_upto(s, s.len()) == 1) by {
        reveal_with_fuel(placeholders_upto, 51);
    }
}

proof fn lemma_update_status_by_id()
    ensures
        placeholder_count(UPDATE_STATUS_BY_ID@) == 2,
{
    reveal_strlit("UPDATE `courses` SET `status` = ? WHERE `id` = ?");
    let s = UPDATE_STATUS_BY_ID@;
    assert(placeholders_upto(s, s.len()) == 2) by {
        reveal_with_fuel(placeholders_upto, 51);
    }
}

proof fn lemma_find_by_code()
    ensures
        placeholder_count(FIND_BY_CODE@) == 1,
{
    reveal_strlit(r"
                SELECT
                   id as `id:CourseID`,
                   code as `code:CourseCode`,
                   type as `type_:CourseType`,
                   name,
                   description,
                   credit,
                   period,
                   day_of_week as `day_of_week:DayOfWeek`,
                   teacher_id as `teacher_id:UserID`,
                   keywords,
                   status as `status:CourseStatus`
                FROM `courses`
                WHERE `code` = ?");
    let s = FIND_BY_CODE@;
    assert(placeholders_upto(s, 50) == 0) by {
        reveal_with_fuel(placeholders_upto, 51);
    }
    assert(placeholders_upto(s, 100) == 0) by {
        reveal_with_fuel(placeholders_upto, 51);
    }
    assert(placeholders_upto(s, 150) == 0) by {
        reveal_with_fuel(placeholders_upto, 51);
    }
    assert(placeholders_upto(s, 200) == 0) by {
        reveal_with_fuel(placeholders_upto, 51);
    }
    assert(placeholders_upto(s, 250) == 0) by {
        reveal_with_fuel(placeholders_upto, 51);
    }
    assert(placeholders_upto(s, 300) == 0) by {
        reveal_with_fuel(placeholders_upto, 51);
    }
    assert(placeholders_upto(s, 350) == 0) by {
        reveal_with_fuel(placeholders_upto, 51);
    }
    assert(placeholders_upto(s, 400) == 0) by {
        reveal_with_fuel(placeholders_upto, 51);
    }
    assert(placeholders_upto(s, 450) == 0) by {
        reveal_with_fuel(placeholders_upto, 51);
    }
    assert(placeholders_upto(s, 500) == 0) by {
        reveal_with_fuel(placeholders_upto, 51);
    }
    assert(placeholders_upto(s, s.len()) == 1) by {
        reveal_with_fuel(placeholders_upto, 51);
    }
}

proof fn lemma_find_with_teacher_by_id()
    ensures
        placeholder_count(FIND_WITH_TEACHER_BY_ID@) == 1,
{
    reveal_strlit(r"
                SELECT
                   courses.id as `id:CourseID`,
                   courses.code as `code:CourseCode`,
                   courses.type as `type_`,
                   courses.name,
                   description,
                   credit,
                   period,
                   day_of_week as `day_of_week:DayOfWeek`,
                   teacher_id as `teacher_id:UserID`,
                   keywords,
                   status as `status:CourseStatus`,
                    `users`.`name` AS `teacher`
                FROM `courses`
                JOIN `users` ON `courses`.`teacher_id` = `users`.`id`
                WHERE `courses`.`id` = ?
            ");
    let s = FIND_WITH_TEACHER_BY_ID@;
    assert(placeholders_upto(s, 50) == 0) by {
        reveal_with_fuel(placeholders_upto, 51);
    }
    assert(placeholders_upto(s, 100) == 0) by {
        reveal_with_fuel(placeholders_upto, 51);
    }
    assert(placeholders_upto(s, 150) == 0) by {
        reveal_with_fuel(placeholders_upto, 51);
    }
    assert(placeholders_upto(s, 200) == 0) by {
        reveal_with_fuel(placeholders_upto, 51);
    }
    assert(placeholders_upto(s, 250) == 0) by {
        reveal_with_fuel(placeholders_upto, 51);
    }
    assert(placeholders_upto(s, 300) == 0) by {
        reveal_with_fuel(placeholders_upto, 51);
    }
    assert(placeholders_upto(s, 350) == 0) by {
        reveal_with_fuel(placeholders_upto, 51);
    }
    assert(placeholders_upto(s, 400) == 0) by {
        reveal_with_fuel(placeholders_upto, 51);
    }
    assert(placeholders_upto(s, 450) == 0) by {
        reveal_with_fuel(placeholders_upto, 51);
    }
    assert(placeholders_upto(s, 500) == 0) by {
        reveal_with_fuel(placeholders_upto, 51);
    }
    assert(placeholders_upto(s, 550) == 0) by {
        reveal_with_fuel(placeholders_upto, 51);
    }
    assert(placeholders_upto(s, 600) == 0) by {
        reveal_with_fuel(placeholders_upto, 51);
    }
    assert(placeholders_upto(s, 650) == 0) by {
        reveal_with_fuel(placeholders_upto, 51);
    }
    assert(placeholders_upto(s, s.len()) == 1) by {
        reveal_with_fuel(placeholders_upto, 51);
    }
}

/// Repository of courses.
#[derive(Clone, Copy, Debug)]
pub struct CourseRepositoryInfra {}

impl CourseRepositoryInfra {
    /// The insert of a new course, its fields in column order.
    pub fn create_statement(&self, req: &CreateCourse) -> (st: Statement)
        ensures
            st.text() == INSERT_COURSE@,
            st.values() == seq![ArgValue::Text(req.id@), ArgValue::Text(req.code@), ArgValue::Text(req.type_.spec_db_name()), ArgValue::Text(req.name@), ArgValue::Text(req.description@), ArgValue::U8(req.credit), ArgValue::U8(req.period), ArgValue::Text(req.day_of_week.spec_db_name()), ArgValue::Text(req.teacher_id@), ArgValue::Text(req.keywords@)],
            st.well_formed(),
    {
        let mut args: Vec<SqlArg> = Vec::new();
        args.push(SqlArg::Text(req.id.clone()));
        args.push(SqlArg::Text(req.code.clone()));
        args.push(SqlArg::Text(String::from_str(req.type_.db_name())));
        args.push(SqlArg::Text(req.name.clone()));
        args.push(SqlArg::Text(req.description.clone()));
        args.push(SqlArg::U8(req.credit));
        args.push(SqlArg::U8(req.period));
        args.push(SqlArg::Text(String::from_str(req.day_of_week.db_name())));
        args.push(SqlArg::Text(req.teacher_id.clone()));
        args.push(SqlArg::Text(req.keywords.clone()));
        let st = Statement { sql: String::from_str(INSERT_COURSE), args };
        proof {
            lemma_insert_course();
            assert(st.values() =~= seq![ArgValue::Text(req.id@), ArgValue::Text(req.code@), ArgValue::Text(req.type_.spec_db_name()), ArgValue::Text(req.name@), ArgValue::Text(req.description@), ArgValue::U8(req.credit), ArgValue::U8(req.period), ArgValue::Text(req.day_of_week.spec_db_name()), ArgValue::Text(req.teacher_id@), ArgValue::Text(req.keywords@)]);
        }
        st
    }

    /// The status of course `id`, read under a shared lock.
    pub fn find_status_for_share_lock_by_id_statement(&self, id: &String) -> (st: Statement)
        ensures
            st.text() == FIND_STATUS_FOR_SHARE_LOCK_BY_ID@,
            st.values() == seq![ArgValue::Text(id@)],
            st.well_formed(),
    {
        let mut args: Vec<SqlArg> = Vec::new();
        args.push(SqlArg::Text(id.clone()));
        let st = Statement { sql: String::from_str(FIND_STATUS_FOR_SHARE_LOCK_BY_ID), args };
        proof {
            lemma_find_status_for_share_lock_by_id();
            assert(st.values() =~= seq![ArgValue::Text(id@)]);
        }
        st
    }

    /// Course `id`, read under a shared lock.
    pub fn find_for_share_lock_by_id_statement(&self, id: &String) -> (st: Statement)
        ensures
            st.text() == FIND_FOR_SHARE_LOCK_BY_ID@,
            st.values() == seq![ArgValue::Text(id@)],
            st.well_formed(),
    {
        let mut args: Vec<SqlArg> = Vec::new();
        args.push(SqlArg::Text(id.clone()));
        let st = Statement { sql: String::from_str(FIND_FOR_SHARE_LOCK_BY_ID), args };
        proof {
            lemma_find_for_share_lock_by_id();
            assert(st.values() =~= seq![ArgValue::Text(id@)]);
        }
        st
    }

    /// The number of courses with id `id`.
    pub fn exist_by_id_statement(&self, id: &String) -> (st: Statement)
        ensures
            st.text() == COUNT_BY_ID@,
            st.values() == seq![ArgValue::Text(id@)],
            st.well_formed(),
    {
        let mut args: Vec<SqlArg> = Vec::new();
        args.push(SqlArg::Text(id.clone()));
        let st = Statement { sql: String::from_str(COUNT_BY_ID), args };
        proof {
            lemma_count_by_id();
            assert(st.values() =~= seq![ArgValue::Text(id@)]);
        }
        st
    }

    /// The number of courses with id `id`, locking them for update.
    pub fn for_update_by_id_statement(&self, id: &String) -> (st: Statement)
        ensures
            st.text() == COUNT_BY_ID_FOR_UPDATE@,
            st.values() == seq![ArgValue::Text(id@)],
            st.well_formed(),
    {
        let mut args: Vec<SqlArg> = Vec::new();
        args.push(SqlArg::Text(id.clone()));
        let st = Statement { sql: String::from_str(COUNT_BY_ID_FOR_UPDATE), args };
        proof {
            lemma_count_by_id_for_update();
            assert(st.values() =~= seq![ArgValue::Text(id@)]);
        }
        st
    }

    /// Setting the status of course `id`; the status is bound first.
    pub fn update_status_by_id_statement(&self, id: &String, status: &CourseStatus) -> (st: Statement)
        ensures
            st.text() == UPDATE_STATUS_BY_ID@,
            st.values() == seq![ArgValue::Text(status.spec_db_name()), ArgValue::Text(id@)],
            st.well_formed(),
    {
        let mut args: Vec<SqlArg> = Vec::new();
        args.push(SqlArg::Text(String::from_str(status.db_name())));
        args.push(SqlArg::Text(id.clone()));
        let st = Statement { sql: String::from_str(UPDATE_STATUS_BY_ID), args };
        proof {
            lemma_update_status_by_id();
            assert(st.values() =~= seq![ArgValue::Text(status.spec_db_name()), ArgValue::Text(id@)]);
        }
        st
    }

    /// The course with code `code`.
    pub fn find_by_code_statement(&self, code: &String) -> (st: Statement)
        ensures
            st.text() == FIND_BY_CODE@,
            st.values() == seq![ArgValue::Text(code@)],
            st.well_formed(),
    {
        let mut args: Vec<SqlArg> = Vec::new();
        args.push(SqlArg::Text(code.clone()));
        let st = Statement { sql: String::from_str(FIND_BY_CODE), args };
        proof {
            lemma_find_by_code();
            assert(st.values() =~= seq![ArgValue::Text(code@)]);
        }
        st
    }

    /// Course `id` with its teacher's name.
    pub fn find_with_teacher_by_id_statement(&self, id: &String) -> (st: Statement)
        ensures
            st.text() == FIND_WITH_TEACHER_BY_ID@,
            st.values() == seq![ArgValue::Text(id@)],
            st.well_formed(),
    {
        let mut args: Vec<SqlArg> = Vec::new();
        args.push(SqlArg::Text(id.clone()));
        let st = Statement { sql: String::from_str(FIND_WITH_TEACHER_BY_ID), args };
        proof {
            lemma_find_with_teacher_by_id();
            assert(st.values() =~= seq![ArgValue::Text(id@)]);
        }
        st
    }

    /// The search of courses with their teacher's name: the conditions of
    /// `q` that are present (a credit or period only when positive; the
    /// keyword condition asks for every word in the name or every word in
    /// the keywords), ordered by code, one page of `limit` rows plus one.
    pub fn find_all_with_teacher_statement(&self, limit: i64, offset: i64, q: &SearchCoursesQuery) -> (st:
        Statement)
        requires
            limit < i64::MAX,
        ensures
            st.text() == course_search_sql(*q),
            st.values() == course_search_values(*q, limit, offset),
            st.well_formed(),
    {
        let ghost q0 = *q;
        let mut sql = String::from_str(SEARCH_SELECT);
        sql.append(SEARCH_FROM);
        sql.append(SEARCH_WHERE);
        let mut args: Vec<SqlArg> = Vec::new();
        let ghost t0 = SEARCH_SELECT@ + SEARCH_FROM@ + SEARCH_WHERE@;
        assert(values_of(args@) =~= Seq::<ArgValue>::empty());
        push_basic_conditions(&mut sql, &mut args, q);
        let ghost t5 = t0 + basic_conditions_sql(q0);
        let ghost v5 = Seq::<ArgValue>::empty() + basic_conditions_values(q0);
        let ghost t6 = t5 + keywords_condition(q0);
        let ghost v6 = v5 + like_values(keyword_words(q0)) + like_values(keyword_words(q0));
        if let Some(keywords) = &q.keywords {
            push_keywords_condition(&mut sql, &mut args, keywords);
            proof {
                lemma_keywords_step(q0, t5, v5, sql@, values_of(args@));
            }
        } else {
            proof {
                lemma_keywords_step(q0, t5, v5, sql@, values_of(args@));
            }
        }
        let ghost t7 = t6 + text_if(q0.status is Some, SEARCH_STATUS@);
        let ghost v7 = v6 + value_if(q0.status is Some, ArgValue::Text(q0.status->0@));
        if let Some(status) = &q.status {
            push_condition(&mut sql, &mut args, SEARCH_STATUS, SqlArg::Text(status.clone()));
        }
        proof {
            lemma_text_if_append(t6, q0.status is Some, SEARCH_STATUS@);
            lemma_value_if_append(v6, q0.status is Some, ArgValue::Text(q0.status->0@));
        }
        assert(sql@ == t7 && values_of(args@) == v7);
        sql.append(SEARCH_ORDER);
        sql.append(SEARCH_LIMIT);
        args.push(SqlArg::I64(limit + 1));
        args.push(SqlArg::I64(offset));
        proof {
            assert(values_of(args@) =~= v7 + seq![ArgValue::I64((limit + 1) as i64), ArgValue::I64(offset)]);
            assert(sql@ == course_search_sql(q0)) by {
                reveal(course_search_sql);
                assert(t0 + basic_conditions_sql(q0) + keywords_condition(q0) + text_if(q0.status is Some, SEARCH_STATUS@) + SEARCH_ORDER@ + SEARCH_LIMIT@
                    =~= SEARCH_SELECT@ + SEARCH_FROM@ + SEARCH_WHERE@ + basic_conditions_sql(q0) + keywords_condition(q0) + text_if(q0.status is Some, SEARCH_STATUS@) + SEARCH_ORDER@ + SEARCH_LIMIT@);
            }
            assert(values_of(args@) == course_search_values(q0, limit, offset)) by {
                reveal(course_search_values);
                assert(v5 =~= basic_conditions_values(q0));
            }
            lemma_course_search_well_formed(q0, limit, offset);
        }
        Statement { sql, args }
    }

    /// What the insert of `req` returns: its id on success,
    /// `CourseDuplicate` when the key exists, any other failure as
    /// `SqlError`.
    pub fn create_result(&self, req: &CreateCourse, outcome: Result<(), DbFailure>) -> (r: Result<
        String,
        ReposError,
    >)
        ensures
            match insert_outcome_spec(outcome, ReposError::CourseDuplicate) {
                Ok(()) => r matches Ok(id) && id@ == req.id@,
                Err(e) => r == Err::<String, ReposError>(e),
            },
    {
        match insert_outcome(outcome, ReposError::CourseDuplicate) {
            Ok(()) => Ok(req.id.clone()),
            Err(e) => Err(e),
        }
    }

    /// A course exists when exactly one row has its id.
    pub fn exist_by_id_result(&self, count: i64) -> (exists: bool)
        ensures
            exists == (count == 1),
    {
        count == 1
    }

    /// The locked course exists when exactly one row has its id.
    pub fn for_update_by_id_result(&self, count: i64) -> (exists: bool)
        ensures
            exists == (count == 1),
    {
        count == 1
    }
}

} // verus!
