//! Announcements not yet read, per user.
use vstd::prelude::*;
use crate::statement::{
    lemma_placeholders_concat, lemma_text_if_append, lemma_value_if_append, placeholder_count,
    placeholders_upto, push_condition, text_if, value_if, values_of, ArgValue, SqlArg, Statement,
};

verus! {

/// The text sent by `create_statement`.
pub const INSERT_UNREAD: &'static str = "INSERT INTO `unread_announcements` (`announcement_id`, `user_id`) VALUES (?, ?)";

/// The text sent by `mark_read_statement`.
pub const MARK_READ: &'static str = "UPDATE `unread_announcements` SET `is_deleted` = true WHERE `announcement_id` = ? AND `user_id` = ?";

/// The text sent by `count_unread_by_user_id_statement`.
pub const COUNT_UNREAD_BY_USER_ID: &'static str = "SELECT COUNT(*) FROM `unread_announcements` WHERE `user_id` = ? AND NOT `is_deleted`";

/// The text sent by `find_announcement_detail_by_announcement_id_and_user_id_statement`.
pub const FIND_ANNOUNCEMENT_DETAIL: &'static str = r"
                SELECT
                    `announcements`.`id` as `id:AnnouncementID`,
                    `courses`.`id` AS `course_id:CourseID`,
                    `courses`.`name` AS `course_name`,
                    `announcements`.`title`,
                    `announcements`.`message`,
                    NOT `unread_announcements`.`is_deleted` AS `unread:bool`
                FROM `announcements`
                JOIN `courses` ON `courses`.`id` = `announcements`.`course_id`
                JOIN `unread_announcements` ON `unread_announcements`.`announcement_id` = `announcements`.`id`
                WHERE
                    `announcements`.`id` = ? AND `unread_announcements`.`user_id` = ?
            ";

proof fn lemma_insert_unread()
    ensures
        placeholder_count(INSERT_UNREAD@) == 2,
{
    reveal_strlit("INSERT INTO `unread_announcements` (`announcement_id`, `user_id`) VALUES (?, ?)");
    let s = INSERT_UNREAD@;
    assert(placeholders_upto(s, 50) == 0) by {
        reveal_with_fuel(placeholders_upto, 51);
    }
    assert(placeholders_upto(s, s.len()) == 2) by {
        reveal_with_fuel(placeholders_upto, 51);
    }
}

proof fn lemma_mark_read()
    ensures
        placeholder_count(MARK_READ@) == 2,
{
    reveal_strlit("UPDATE `unread_announcements` SET `is_deleted` = true WHERE `announcement_id` = ? AND `user_id` = ?");
    let s = MARK_READ@;
    assert(placeholders_upto(s, 50) == 0) by {
        reveal_with_fuel(placeholders_upto, 51);
    }
    assert(placeholders_upto(s, s.len()) == 2) by {
        reveal_with_fuel(placeholders_upto, 51);
    }
}

proof fn lemma_count_unread_by_user_id()
    ensures
        placeholder_count(COUNT_UNREAD_BY_USER_ID@) == 1,
{
    reveal_strlit("SELECT COUNT(*) FROM `unread_announcements` WHERE `user_id` = ? AND NOT `is_deleted`");
    let s = COUNT_UNREAD_BY_USER_ID@;
    assert(placeholders_upto(s, 50) == 0) by {
        reveal_with_fuel(placeholders_upto, 51);
    }
    assert(placeholders_upto(s, s.len()) == 1) by {
        reveal_with_fuel(placeholders_upto, 51);
    }
}

proof fn lemma_find_announcement_detail()
    ensures
        placeholder_count(FIND_ANNOUNCEMENT_DETAIL@) == 2,
{
    reveal_strlit(r"
                SELECT
                    `announcements`.`id` as `id:AnnouncementID`,
                    `courses`.`id` AS `course_id:CourseID`,
                    `courses`.`name` AS `course_name`,
                    `announcements`.`title`,
                    `announcements`.`message`,
                    NOT `unread_announcements`.`is_deleted` AS `unread:bool`
                FROM `announcements`
                JOIN `courses` ON `courses`.`id` = `announcements`.`course_id`
                JOIN `unread_announcements` ON `unread_announcements`.`announcement_id` = `announcements`.`id`
                WHERE
                    `announcements`.`id` = ? AND `unread_announcements`.`user_id` = ?
            ");
    let s = FIND_ANNOUNCEMENT_DETAIL@;
    assert(placeholders_upto(s, 50) == 0) by {
        reveal_with_fuel(placeholders_upto, 51);
    }
    assert(placeholders_upto(s, 100) == 0) by {
        reveal_with_fuel(placeholders_upto, 51);
    }
    assert(placeholders_upto(s, 150) == 0) by {
        reveal_with_fuel(placeholders_upto, 51);
    }
    assert(placeholders_upto(s, 200) == 0) by {
        reveal_with_fuel(placeholders_upto, 51);
    }
    assert(placeholders_upto(s, 250) == 0) by {
        reveal_with_fuel(placeholders_upto, 51);
    }
    assert(placeholders_upto(s, 300) == 0) by {
        reveal_with_fuel(placeholders_upto, 51);
    }
    assert(placeholders_upto(s, 350) == 0) by {
        reveal_with_fuel(placeholders_upto, 51);
    }
    assert(placeholders_upto(s, 400) == 0) by {
        reveal_with_fuel(placeholders_upto, 51);
    }
    assert(placeholders_upto(s, 450) == 0) by {
        reveal_with_fuel(placeholders_upto, 51);
    }
    assert(placeholders_upto(s, 500) == 0) by {
        reveal_with_fuel(placeholders_upto, 51);
    }
    assert(placeholders_upto(s, 550) == 0) by {
        reveal_with_fuel(placeholders_upto, 51);
    }
    assert(placeholders_upto(s, 600) == 0) by {
        reveal_with_fuel(placeholders_upto, 51);
    }
    assert(placeholders_upto(s, 650) == 0) by {
        reveal_with_fuel(placeholders_upto, 51);
    }
    assert(placeholders_upto(s, 700) == 1) by {
        reveal_with_fuel(placeholders_upto, 51);
    }
    assert(placeholders_upto(s, s.len()) == 2) by {
        reveal_with_fuel(placeholders_upto, 51);
    }
}

/// The start of the search of unread announcements.
pub const UNREAD_BASE: &'static str = "SELECT `announcements`.`id`, `courses`.`id` AS `course_id`, `courses`.`name` AS `course_name`, `announcements`.`title`, NOT `unread_announcements`.`is_deleted` AS `unread` FROM `announcements` JOIN `courses` ON `announcements`.`course_id` = `courses`.`id` JOIN `registrations` ON `courses`.`id` = `registrations`.`course_id` JOIN `unread_announcements` ON `announcements`.`id` = `unread_announcements`.`announcement_id` WHERE 1=1";

/// The condition on the course, when one is given.
pub const UNREAD_COURSE: &'static str = " AND `announcements`.`course_id` = ?";

/// The conditions on the user, the order and the page.
pub const UNREAD_TAIL: &'static str = " AND `unread_announcements`.`user_id` = ? AND `registrations`.`user_id` = ? ORDER BY `announcements`.`id` DESC LIMIT ? OFFSET ?";

proof fn lemma_unread_base()
    ensures
        placeholder_count(UNREAD_BASE@) == 0,
{
    reveal_strlit("SELECT `announcements`.`id`, `courses`.`id` AS `course_id`, `courses`.`name` AS `course_name`, `announcements`.`title`, NOT `unread_announcements`.`is_deleted` AS `unread` FROM `announcements` JOIN `courses` ON `announcements`.`course_id` = `courses`.`id` JOIN `registrations` ON `courses`.`id` = `registrations`.`course_id` JOIN `unread_announcements` ON `announcements`.`id` = `unread_announcements`.`announcement_id` WHERE 1=1");
    let s = UNREAD_BASE@;
    assert(placeholders_upto(s, 50) == 0) by {
        reveal_with_fuel(placeholders_upto, 51);
    }
    assert(placeholders_upto(s, 100) == 0) by {
        reveal_with_fuel(placeholders_upto, 51);
    }
    assert(placeholders_upto(s, 150) == 0) by {
        reveal_with_fuel(placeholders_upto, 51);
    }
    assert(placeholders_upto(s, 200) == 0) by {
        reveal_with_fuel(placeholders_upto, 51);
    }
    assert(placeholders_upto(s, 250) == 0) by {
        reveal_with_fuel(placeholders_upto, 51);
    }
    assert(placeholders_upto(s, 300) == 0) by {
        reveal_with_fuel(placeholders_upto, 51);
    }
    assert(placeholders_upto(s, 350) == 0) by {
        reveal_with_fuel(placeholders_upto, 51);
    }
    assert(placeholders_upto(s, 400) == 0) by {
        reveal_with_fuel(placeholders_upto, 51);
    }
    assert(placeholders_upto(s, s.len()) == 0) by {
        reveal_with_fuel(placeholders_upto, 51);
    }
}

proof fn lemma_unread_course()
    ensures
        placeholder_count(UNREAD_COURSE@) == 1,
{
    reveal_strlit(" AND `announcements`.`course_id` = ?");
    let s = UNREAD_COURSE@;
    assert(placeholders_upto(s, s.len()) == 1) by {
        reveal_with_fuel(placeholders_upto, 51);
    }
}

proof fn lemma_unread_tail()
    ensures
        placeholder_count(UNREAD_TAIL@) == 4,
{
    reveal_strlit(" AND `unread_announcements`.`user_id` = ? AND `registrations`.`user_id` = ? ORDER BY `announcements`.`id` DESC LIMIT ? OFFSET ?");
    let s = UNREAD_TAIL@;
    assert(placeholders_upto(s, 50) == 1) by {
        reveal_with_fuel(placeholders_upto, 51);
    }
    assert(placeholders_upto(s, 100) == 2) by {
        reveal_with_fuel(placeholders_upto, 51);
    }
    assert(placeholders_upto(s, s.len()) == 4) by {
        reveal_with_fuel(placeholders_upto, 51);
    }
}

/// The text of the search of unread announcements.
pub open spec fn unread_search_sql(by_course: bool) -> Seq<char> {
    UNREAD_BASE@ + text_if(by_course, UNREAD_COURSE@) + UNREAD_TAIL@
}

/// The values of the search of unread announcements: the course when one
/// is given, the user twice, one row more than `limit`, and `offset`.
pub open spec fn unread_search_values(
    user_id: Seq<char>,
    limit: i64,
    offset: i64,
    course_id: Option<Seq<char>>,
) -> Seq<ArgValue> {
    value_if(course_id is Some, ArgValue::Text(course_id->0)) + seq![
        ArgValue::Text(user_id),
        ArgValue::Text(user_id),
        ArgValue::I64((limit + 1) as i64),
        ArgValue::I64(offset),
    ]
}

/// Law: the search of unread announcements binds exactly one value per
/// placeholder of its text, with or without a course.
pub proof fn lemma_unread_search_well_formed(
    user_id: Seq<char>,
    limit: i64,
    offset: i64,
    course_id: Option<Seq<char>>,
)
    ensures
        placeholder_count(unread_search_sql(course_id is Some)) == unread_search_values(
            user_id,
            limit,
            offset,
            course_id,
        ).len(),
{
    lemma_unread_base();
    lemma_unread_course();
    lemma_unread_tail();
    let by_course = course_id is Some;
    if !by_course {
        assert(placeholder_count(Seq::<char>::empty()) == 0);
    }
    lemma_placeholders_concat(UNREAD_BASE@, text_if(by_course, UNREAD_COURSE@));
    lemma_placeholders_concat(UNREAD_BASE@ + text_if(by_course, UNREAD_COURSE@), UNREAD_TAIL@);
}

/// Law: the page of unread announcements is chosen by the last two bound
/// values, one row more than `limit` and then `offset`, whether or not a
/// course is given; before them the user is bound twice, and a given
/// course is bound first.
pub proof fn lemma_unread_search_page(
    user_id: Seq<char>,
    limit: i64,
    offset: i64,
    course_id: Option<Seq<char>>,
)
    requires
        limit < i64::MAX,
    ensures
        ({
            let v = unread_search_values(user_id, limit, offset, course_id);
            let n = v.len() as int;
            &&& n == if course_id is Some { 5int } else { 4int }
            &&& v[n - 1] == ArgValue::I64(offset)
            &&& v[n - 2] matches ArgValue::I64(x) && x == limit + 1
            &&& v[n - 3] == ArgValue::Text(user_id)
            &&& v[n - 4] == ArgValue::Text(user_id)
            &&& course_id matches Some(c) ==> v[0] == ArgValue::Text(c)
        }),
{
}

/// Law: asking for one course only inserts the course condition right
/// after the fixed head of the search, which holds no placeholder, so the
/// course is the first bound value; both texts end with the page clause
/// ``LIMIT ? OFFSET ?``.
pub proof fn lemma_unread_search_course_condition()
    ensures
        ({
            let with = unread_search_sql(true);
            let without = unread_search_sql(false);
            let head = UNREAD_BASE@;
            let page = " LIMIT ? OFFSET ?"@;
            &&& without.take(head.len() as int) == head
            &&& with == head + UNREAD_COURSE@ + without.skip(head.len() as int)
            &&& placeholder_count(head) == 0
            &&& with.len() >= page.len() && with.skip(with.len() - page.len()) == page
            &&& without.len() >= page.len() && without.skip(without.len() - page.len()) == page
        }),
{
    lemma_unread_base();
    let head = UNREAD_BASE@;
    let with = unread_search_sql(true);
    let without = unread_search_sql(false);
    assert(without =~= head + UNREAD_TAIL@);
    assert(with =~= head + UNREAD_COURSE@ + UNREAD_TAIL@);
    assert((head + UNREAD_TAIL@).take(head.len() as int) =~= head);
    assert((head + UNREAD_TAIL@).skip(head.len() as int) =~= UNREAD_TAIL@);
    reveal_strlit(" LIMIT ? OFFSET ?");
    reveal_strlit(" AND `unread_announcements`.`user_id` = ? AND `registrations`.`user_id` = ? ORDER BY `announcements`.`id` DESC LIMIT ? OFFSET ?");
    let page = " LIMIT ? OFFSET ?"@;
    let tail = UNREAD_TAIL@;
    assert(tail.skip(tail.len() - page.len()) =~= page);
    assert(with.skip(with.len() - page.len()) =~= tail.skip(tail.len() - page.len()));
    assert(without.skip(without.len() - page.len()) =~= tail.skip(tail.len() - page.len()));
}

/// Repository of unread announcements.
#[derive(Clone, Copy, Debug)]
pub struct UnreadAnnouncementRepositoryInfra {}

impl UnreadAnnouncementRepositoryInfra {
    /// Marking announcement `announcement_id` as unread by user `user_id`.
    pub fn create_statement(&self, announcement_id: &String, user_id: &String) -> (st: Statement)
        ensures
            st.text() == INSERT_UNREAD@,
            st.values() == seq![ArgValue::Text(announcement_id@), ArgValue::Text(user_id@)],
            st.well_formed(),
    {
        let mut args: Vec<SqlArg> = Vec::new();
        args.push(SqlArg::Text(announcement_id.clone()));
        args.push(SqlArg::Text(user_id.clone()));
        let st = Statement { sql: String::from_str(INSERT_UNREAD), args };
        proof {
            lemma_insert_unread();
            assert(st.values() =~= seq![ArgValue::Text(announcement_id@), ArgValue::Text(user_id@)]);
        }
        st
    }

    /// Marking announcement `announcement_id` as read by user `user_id`.
    pub fn mark_read_statement(&self, announcement_id: &String, user_id: &String) -> (st: Statement)
        ensures
            st.text() == MARK_READ@,
            st.values() == seq![ArgValue::Text(announcement_id@), ArgValue::Text(user_id@)],
            st.well_formed(),
    {
        let mut args: Vec<SqlArg> = Vec::new();
        args.push(SqlArg::Text(announcement_id.clone()));
        args.push(SqlArg::Text(user_id.clone()));
        let st = Statement { sql: String::from_str(MARK_READ), args };
        proof {
            lemma_mark_read();
            assert(st.values() =~= seq![ArgValue::Text(announcement_id@), ArgValue::Text(user_id@)]);
        }
        st
    }

    /// The number of announcements user `user_id` has not read.
    pub fn count_unread_by_user_id_statement(&self, user_id: &String) -> (st: Statement)
        ensures
            st.text() == COUNT_UNREAD_BY_USER_ID@,
            st.values() == seq![ArgValue::Text(user_id@)],
            st.well_formed(),
    {
        let mut args: Vec<SqlArg> = Vec::new();
        args.push(SqlArg::Text(user_id.clone()));
        let st = Statement { sql: String::from_str(COUNT_UNREAD_BY_USER_ID), args };
        proof {
            lemma_count_unread_by_user_id();
            assert(st.values() =~= seq![ArgValue::Text(user_id@)]);
        }
        st
    }

    /// Announcement `announcement_id` with its course and whether user `user_id` has not read it.
    pub fn find_announcement_detail_by_announcement_id_and_user_id_statement(&self, announcement_id: &String, user_id: &String) -> (st: Statement)
        ensures
            st.text() == FIND_ANNOUNCEMENT_DETAIL@,
            st.values() == seq![ArgValue::Text(announcement_id@), ArgValue::Text(user_id@)],
            st.well_formed(),
    {
        let mut args: Vec<SqlArg> = Vec::new();
        args.push(SqlArg::Text(announcement_id.clone()));
        args.push(SqlArg::Text(user_id.clone()));
        let st = Statement { sql: String::from_str(FIND_ANNOUNCEMENT_DETAIL), args };
        proof {
            lemma_find_announcement_detail();
            assert(st.values() =~= seq![ArgValue::Text(announcement_id@), ArgValue::Text(user_id@)]);
        }
        st
    }

    /// The unread announcements of user `user_id` in the courses they are
    /// registered for, only those of `course_id` when given, the newest
    /// first, one page of `limit` rows plus one.
    pub fn find_unread_announcements_by_user_id_statement(
        &self,
        user_id: &String,
        limit: i64,
        offset: i64,
        course_id: Option<String>,
    ) -> (st: Statement)
        requires
            limit < i64::MAX,
        ensures
            st.text() == unread_search_sql(course_id is Some),
            st.values() == unread_search_values(
                user_id@,
                limit,
                offset,
                match course_id {
                    Some(c) => Some(c@),
                    None => None,
                },
            ),
            st.well_formed(),
    {
        let ghost course_view = match &course_id {
            Some(c) => Some(c@),
            None => None::<Seq<char>>,
        };
        let mut sql = String::from_str(UNREAD_BASE);
        let mut args: Vec<SqlArg> = Vec::new();
        let ghost t0 = sql@;
        let ghost v0 = values_of(args@);
        assert(v0 =~= Seq::<ArgValue>::empty());
        let ghost by_course = course_id is Some;
        let ghost cv = ArgValue::Text(course_view->0);
        if let Some(course_id) = course_id {
            push_condition(&mut sql, &mut args, UNREAD_COURSE, SqlArg::Text(course_id));
        }
        proof {
            lemma_text_if_append(t0, by_course, UNREAD_COURSE@);
            lemma_value_if_append(v0, by_course, cv);
        }
        let ghost v1 = v0 + value_if(by_course, cv);
        assert(values_of(args@) == v1);
        sql.append(UNREAD_TAIL);
        args.push(SqlArg::Text(user_id.clone()));
        args.push(SqlArg::Text(user_id.clone()));
        args.push(SqlArg::I64(limit + 1));
        args.push(SqlArg::I64(offset));
        proof {
            assert(values_of(args@) =~= v1 + seq![
                ArgValue::Text(user_id@),
                ArgValue::Text(user_id@),
                ArgValue::I64((limit + 1) as i64),
                ArgValue::I64(offset),
            ]);
            assert(v1 =~= value_if(by_course, cv));
            lemma_unread_search_well_formed(user_id@, limit, offset, course_view);
        }
        Statement { sql, args }
    }
}

} // verus!
