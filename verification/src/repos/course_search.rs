//! The course search: its text and values, built from the search
//! conditions, and the proof that they match.
use vstd::prelude::*;
use crate::keywords::{split_on_space, split_on_space_spec};
use crate::models::SearchCoursesQuery;
use crate::statement::{
    lemma_placeholders_concat, lemma_placeholders_repeat, lemma_text_if_append, lemma_value_if_append,
    placeholder_count, placeholders_upto, push_condition, repeat, text_if, value_if, values_of, ArgValue,
    SqlArg,
};

verus! {

pub const SEARCH_SELECT: &'static str = "SELECT `courses`.*, `users`.`name` AS `teacher`";

pub const SEARCH_FROM: &'static str = " FROM `courses` JOIN `users` ON `courses`.`teacher_id` = `users`.`id`";

pub const SEARCH_WHERE: &'static str = " WHERE 1=1";

pub const SEARCH_TYPE: &'static str = " AND `courses`.`type` = ?";

pub const SEARCH_CREDIT: &'static str = " AND `courses`.`credit` = ?";

pub const SEARCH_TEACHER: &'static str = " AND `users`.`name` = ?";

pub const SEARCH_PERIOD: &'static str = " AND `courses`.`period` = ?";

pub const SEARCH_DAY_OF_WEEK: &'static str = " AND `courses`.`day_of_week` = ?";

pub const SEARCH_NAME_LIKE: &'static str = " AND `courses`.`name` LIKE ?";

pub const SEARCH_KEYWORDS_LIKE: &'static str = " AND `courses`.`keywords` LIKE ?";

pub const SEARCH_KEYWORDS_OPEN: &'static str = " AND ((1=1";

pub const SEARCH_KEYWORDS_MID: &'static str = ") OR (1=1";

pub const SEARCH_KEYWORDS_CLOSE: &'static str = "))";

pub const SEARCH_STATUS: &'static str = " AND `courses`.`status` = ?";

pub const SEARCH_ORDER: &'static str = " ORDER BY `courses`.`code`";

pub const SEARCH_LIMIT: &'static str = " LIMIT ? OFFSET ?";

/// The pattern that matches any text containing `w`.
pub open spec fn like_pattern_spec(w: Seq<char>) -> Seq<char> {
    seq!['%'] + w + seq!['%']
}

/// One pattern value per word, in order.
pub open spec fn like_values(words: Seq<Seq<char>>) -> Seq<ArgValue> {
    words.map_values(|w: Seq<char>| ArgValue::Text(like_pattern_spec(w)))
}

/// The credit condition is used only when it is positive.
pub open spec fn credit_used(q: SearchCoursesQuery) -> bool {
    q.credit matches Some(c) && c > 0
}

/// The period condition is used only when it is positive.
pub open spec fn period_used(q: SearchCoursesQuery) -> bool {
    q.period matches Some(p) && p > 0
}

/// The words of the keyword condition, if there is one.
pub open spec fn keyword_words(q: SearchCoursesQuery) -> Seq<Seq<char>> {
    match q.keywords {
        Some(k) => split_on_space_spec(k@),
        None => Seq::empty(),
    }
}

/// The keyword condition: every word in the name, or every word in the
/// keywords.
pub open spec fn keywords_condition(q: SearchCoursesQuery) -> Seq<char> {
    let n = keyword_words(q).len();
    if q.keywords is Some {
        SEARCH_KEYWORDS_OPEN@ + repeat(SEARCH_NAME_LIKE@, n) + SEARCH_KEYWORDS_MID@ + repeat(
            SEARCH_KEYWORDS_LIKE@,
            n,
        ) + SEARCH_KEYWORDS_CLOSE@
    } else {
        Seq::empty()
    }
}

/// The conditions on type, credit, teacher, period and weekday that are
/// used, in that order.
pub open spec fn basic_conditions_sql(q: SearchCoursesQuery) -> Seq<char> {
    text_if(q.type_ is Some, SEARCH_TYPE@) + text_if(credit_used(q), SEARCH_CREDIT@) + text_if(
        q.teacher is Some,
        SEARCH_TEACHER@,
    ) + text_if(period_used(q), SEARCH_PERIOD@) + text_if(
        q.day_of_week is Some,
        SEARCH_DAY_OF_WEEK@,
    )
}

/// The values of the conditions on type, credit, teacher, period and
/// weekday, in order.
pub open spec fn basic_conditions_values(q: SearchCoursesQuery) -> Seq<ArgValue> {
    value_if(q.type_ is Some, ArgValue::Text(q.type_->0@)) + value_if(
        credit_used(q),
        ArgValue::I64(q.credit->0),
    ) + value_if(q.teacher is Some, ArgValue::Text(q.teacher->0@)) + value_if(
        period_used(q),
        ArgValue::I64(q.period->0),
    ) + value_if(q.day_of_week is Some, ArgValue::Text(q.day_of_week->0@))
}

/// The text of the course search.
#[verifier::opaque]
pub open spec fn course_search_sql(q: SearchCoursesQuery) -> Seq<char> {
    SEARCH_SELECT@ + SEARCH_FROM@ + SEARCH_WHERE@ + basic_conditions_sql(q) + keywords_condition(q)
        + text_if(q.status is Some, SEARCH_STATUS@) + SEARCH_ORDER@ + SEARCH_LIMIT@
}

/// The values bound by the course search, in order. One more row than
/// `limit` is asked for: a row beyond the page shows that a next page
/// exists.
#[verifier::opaque]
pub open spec fn course_search_values(q: SearchCoursesQuery, limit: i64, offset: i64) -> Seq<
    ArgValue,
> {
    basic_conditions_values(q) + like_values(keyword_words(q)) + like_values(keyword_words(q))
        + value_if(q.status is Some, ArgValue::Text(q.status->0@)) + seq![
        ArgValue::I64((limit + 1) as i64),
        ArgValue::I64(offset),
    ]
}

/// `%w%`.
pub fn like_pattern(w: &str) -> (p: String)
    ensures
        p@ == like_pattern_spec(w@),
{
    let mut p = String::from_str("%");
    p.append(w);
    p.append("%");
    proof {
        reveal_strlit("%");
    }
    p
}

proof fn lemma_search_literals()
    ensures
        placeholder_count(SEARCH_SELECT@) == 0,
        placeholder_count(SEARCH_FROM@) == 0,
        placeholder_count(SEARCH_WHERE@) == 0,
        placeholder_count(SEARCH_TYPE@) == 1,
        placeholder_count(SEARCH_CREDIT@) == 1,
        placeholder_count(SEARCH_TEACHER@) == 1,
        placeholder_count(SEARCH_PERIOD@) == 1,
        placeholder_count(SEARCH_DAY_OF_WEEK@) == 1,
        placeholder_count(SEARCH_NAME_LIKE@) == 1,
        placeholder_count(SEARCH_KEYWORDS_LIKE@) == 1,
        placeholder_count(SEARCH_KEYWORDS_OPEN@) == 0,
        placeholder_count(SEARCH_KEYWORDS_MID@) == 0,
        placeholder_count(SEARCH_KEYWORDS_CLOSE@) == 0,
        placeholder_count(SEARCH_STATUS@) == 1,
        placeholder_count(SEARCH_ORDER@) == 0,
        placeholder_count(SEARCH_LIMIT@) == 2,
{
    reveal_with_fuel(placeholders_upto, 80);
    reveal_strlit("SELECT `courses`.*, `users`.`name` AS `teacher`");
    reveal_strlit(" FROM `courses` JOIN `users` ON `courses`.`teacher_id` = `users`.`id`");
    reveal_strlit(" WHERE 1=1");
    reveal_strlit(" AND `courses`.`type` = ?");
    reveal_strlit(" AND `courses`.`credit` = ?");
    reveal_strlit(" AND `users`.`name` = ?");
    reveal_strlit(" AND `courses`.`period` = ?");
    reveal_strlit(" AND `courses`.`day_of_week` = ?");
    reveal_strlit(" AND `courses`.`name` LIKE ?");
    reveal_strlit(" AND `courses`.`keywords` LIKE ?");
    reveal_strlit(" AND ((1=1");
    reveal_strlit(") OR (1=1");
    reveal_strlit("))");
    reveal_strlit(" AND `courses`.`status` = ?");
    reveal_strlit(" ORDER BY `courses`.`code`");
    reveal_strlit(" LIMIT ? OFFSET ?");
}

proof fn lemma_text_if_count(b: bool, t: Seq<char>, k: nat)
    requires
        placeholder_count(t) == k,
    ensures
        placeholder_count(text_if(b, t)) == if b {
            k
        } else {
            0
        },
{
    if !b {
        assert(placeholder_count(Seq::<char>::empty()) == 0);
    }
}

proof fn lemma_keywords_condition_count(q: SearchCoursesQuery)
    ensures
        placeholder_count(keywords_condition(q)) == 2 * keyword_words(q).len(),
{
    lemma_search_literals();
    let n = keyword_words(q).len();
    if q.keywords is Some {
        let a = SEARCH_KEYWORDS_OPEN@;
        let b = repeat(SEARCH_NAME_LIKE@, n);
        let c = SEARCH_KEYWORDS_MID@;
        let d = repeat(SEARCH_KEYWORDS_LIKE@, n);
        let e = SEARCH_KEYWORDS_CLOSE@;
        lemma_placeholders_repeat(SEARCH_NAME_LIKE@, n);
        lemma_placeholders_repeat(SEARCH_KEYWORDS_LIKE@, n);
        lemma_placeholders_concat(a, b);
        lemma_placeholders_concat(a + b, c);
        lemma_placeholders_concat(a + b + c, d);
        lemma_placeholders_concat(a + b + c + d, e);
    } else {
        assert(placeholder_count(Seq::<char>::empty()) == 0);
    }
}

/// Number of values the course search binds.
pub open spec fn course_search_value_count(q: SearchCoursesQuery) -> nat {
    (if q.type_ is Some { 1nat } else { 0 }) + (if credit_used(q) { 1nat } else { 0 }) + (if q.teacher is Some {
        1nat
    } else {
        0
    }) + (if period_used(q) { 1nat } else { 0 }) + (if q.day_of_week is Some { 1nat } else { 0 }) + 2
        * keyword_words(q).len() + (if q.status is Some { 1nat } else { 0 }) + 2
}

proof fn lemma_course_search_values_len(q: SearchCoursesQuery, limit: i64, offset: i64)
    ensures
        course_search_values(q, limit, offset).len() == course_search_value_count(q),
{
    reveal(course_search_values);
}

proof fn lemma_basic_conditions_count(q: SearchCoursesQuery)
    ensures
        placeholder_count(basic_conditions_sql(q)) == (if q.type_ is Some { 1nat } else { 0 }) + (if credit_used(q) {
            1nat
        } else {
            0
        }) + (if q.teacher is Some { 1nat } else { 0 }) + (if period_used(q) { 1nat } else { 0 }) + (
        if q.day_of_week is Some {
            1nat
        } else {
            0
        }),
{
    lemma_search_literals();
    let p3 = text_if(q.type_ is Some, SEARCH_TYPE@);
    let p4 = text_if(credit_used(q), SEARCH_CREDIT@);
    let p5 = text_if(q.teacher is Some, SEARCH_TEACHER@);
    let p6 = text_if(period_used(q), SEARCH_PERIOD@);
    let p7 = text_if(q.day_of_week is Some, SEARCH_DAY_OF_WEEK@);
    lemma_text_if_count(q.type_ is Some, SEARCH_TYPE@, 1);
    lemma_text_if_count(credit_used(q), SEARCH_CREDIT@, 1);
    lemma_text_if_count(q.teacher is Some, SEARCH_TEACHER@, 1);
    lemma_text_if_count(period_used(q), SEARCH_PERIOD@, 1);
    lemma_text_if_count(q.day_of_week is Some, SEARCH_DAY_OF_WEEK@, 1);
    lemma_placeholders_concat(p3, p4);
    lemma_placeholders_concat(p3 + p4, p5);
    lemma_placeholders_concat(p3 + p4 + p5, p6);
    lemma_placeholders_concat(p3 + p4 + p5 + p6, p7);
}

proof fn lemma_course_search_sql_count(q: SearchCoursesQuery)
    ensures
        placeholder_count(course_search_sql(q)) == course_search_value_count(q),
{
    lemma_search_literals();
    lemma_keywords_condition_count(q);
    lemma_basic_conditions_count(q);
    lemma_text_if_count(q.status is Some, SEARCH_STATUS@, 1);
    let p0 = SEARCH_SELECT@;
    let p1 = SEARCH_FROM@;
    let p2 = SEARCH_WHERE@;
    let p3 = basic_conditions_sql(q);
    let p8 = keywords_condition(q);
    let p9 = text_if(q.status is Some, SEARCH_STATUS@);
    let p10 = SEARCH_ORDER@;
    let p11 = SEARCH_LIMIT@;
    let s1 = p0 + p1;
    lemma_placeholders_concat(p0, p1);
    let s2 = s1 + p2;
    lemma_placeholders_concat(s1, p2);
    let s3 = s2 + p3;
    lemma_placeholders_concat(s2, p3);
    let s8 = s3 + p8;
    lemma_placeholders_concat(s3, p8);
    let s9 = s8 + p9;
    lemma_placeholders_concat(s8, p9);
    let s10 = s9 + p10;
    lemma_placeholders_concat(s9, p10);
    let s11 = s10 + p11;
    lemma_placeholders_concat(s10, p11);
    reveal(course_search_sql);
    assert(course_search_sql(q) == s11);
}

/// Law: the course search binds exactly one value per placeholder of its
/// text, whatever the query.
pub proof fn lemma_course_search_well_formed(q: SearchCoursesQuery, limit: i64, offset: i64)
    ensures
        placeholder_count(course_search_sql(q)) == course_search_values(q, limit, offset).len(),
{
    lemma_course_search_values_len(q, limit, offset);
    lemma_course_search_sql_count(q);
}

/// Appends one `LIKE` condition per word to `condition`, with the pattern
/// of each word.
fn push_like_conditions(
    condition: &mut String,
    args: &mut Vec<SqlArg>,
    like: &str,
    words: &Vec<String>,
)
    ensures
        final(condition)@ == old(condition)@ + repeat(like@, words@.len()),
        values_of(final(args)@) == values_of(old(args)@) + like_values(
            words@.map_values(|p: String| p@),
        ),
{
    let ghost ws = words@.map_values(|p: String| p@);
    let ghost c0 = condition@;
    let ghost v0 = values_of(args@);
    let mut i: usize = 0;
    assert(c0 + repeat(like@, 0) =~= c0);
    assert(v0 + like_values(ws.subrange(0, 0)) =~= v0);
    while i < words.len()
        invariant
            ws == words@.map_values(|p: String| p@),
            i <= words.len(),
            condition@ == c0 + repeat(like@, i as nat),
            values_of(args@) == v0 + like_values(ws.subrange(0, i as int)),
        decreases words.len() - i,
    {
        condition.append(like);
        let pattern = like_pattern(words[i].as_str());
        let ghost before = args@;
        args.push(SqlArg::Text(pattern));
        proof {
            assert(words[i as int]@ == ws[i as int]);
            assert(ws.subrange(0, i + 1) =~= ws.subrange(0, i as int).push(ws[i as int]));
            assert(values_of(args@) =~= values_of(before).push(
                ArgValue::Text(like_pattern_spec(ws[i as int])),
            ));
            assert(like_values(ws.subrange(0, i + 1)) =~= like_values(ws.subrange(0, i as int)).push(
                ArgValue::Text(like_pattern_spec(ws[i as int])),
            ));
            assert(c0 + repeat(like@, (i + 1) as nat) =~= c0 + repeat(like@, i as nat) + like@);
        }
        i = i + 1;
    }
    assert(ws.subrange(0, ws.len() as int) =~= ws);
}

/// Appends the keyword condition: every word in the name, or every word in
/// the keywords; the name patterns are bound before the keyword patterns.
pub(crate) fn push_keywords_condition(sql: &mut String, args: &mut Vec<SqlArg>, keywords: &String)
    ensures
        final(sql)@ == old(sql)@ + SEARCH_KEYWORDS_OPEN@ + repeat(
            SEARCH_NAME_LIKE@,
            split_on_space_spec(keywords@).len(),
        ) + SEARCH_KEYWORDS_MID@ + repeat(
            SEARCH_KEYWORDS_LIKE@,
            split_on_space_spec(keywords@).len(),
        ) + SEARCH_KEYWORDS_CLOSE@,
        values_of(final(args)@) == values_of(old(args)@) + like_values(
            split_on_space_spec(keywords@),
        ) + like_values(split_on_space_spec(keywords@)),
{
    let words = split_on_space(keywords.as_str());
    let mut name_condition = String::new();
    push_like_conditions(&mut name_condition, args, SEARCH_NAME_LIKE, &words);
    let mut keywords_condition = String::new();
    push_like_conditions(&mut keywords_condition, args, SEARCH_KEYWORDS_LIKE, &words);
    let ghost s0 = sql@;
    sql.append(SEARCH_KEYWORDS_OPEN);
    sql.append(name_condition.as_str());
    sql.append(SEARCH_KEYWORDS_MID);
    sql.append(keywords_condition.as_str());
    sql.append(SEARCH_KEYWORDS_CLOSE);
    assert(name_condition@ =~= repeat(SEARCH_NAME_LIKE@, words@.len()));
    assert(keywords_condition@ =~= repeat(SEARCH_KEYWORDS_LIKE@, words@.len()));
}

proof fn lemma_concat5<A>(t: Seq<A>, a: Seq<A>, b: Seq<A>, c: Seq<A>, d: Seq<A>, e: Seq<A>)
    ensures
        t + a + b + c + d + e == t + (a + b + c + d + e),
{
    assert(t + a + b + c + d + e =~= t + (a + b + c + d + e));
}

/// Appends the conditions on type, credit, teacher, period and weekday
/// that `q` uses, with their values.
pub(crate) fn push_basic_conditions(sql: &mut String, args: &mut Vec<SqlArg>, q: &SearchCoursesQuery)
    ensures
        final(sql)@ == old(sql)@ + basic_conditions_sql(*q),
        values_of(final(args)@) == values_of(old(args)@) + basic_conditions_values(*q),
{
    let ghost q0 = *q;
    let ghost t0 = sql@;
    let ghost v0 = values_of(args@);
    if let Some(course_type) = &q.type_ {
        push_condition(sql, args, SEARCH_TYPE, SqlArg::Text(course_type.clone()));
    }
    let ghost t1 = t0 + text_if(q0.type_ is Some, SEARCH_TYPE@);
    let ghost v1 = v0 + value_if(q0.type_ is Some, ArgValue::Text(q0.type_->0@));
    proof {
        lemma_text_if_append(t0, q0.type_ is Some, SEARCH_TYPE@);
        lemma_value_if_append(v0, q0.type_ is Some, ArgValue::Text(q0.type_->0@));
    }
    assert(sql@ == t1 && values_of(args@) == v1);
    if let Some(credit) = q.credit {
        if credit > 0 {
            push_condition(sql, args, SEARCH_CREDIT, SqlArg::I64(credit));
        }
    }
    let ghost t2 = t1 + text_if(credit_used(q0), SEARCH_CREDIT@);
    let ghost v2 = v1 + value_if(credit_used(q0), ArgValue::I64(q0.credit->0));
    proof {
        lemma_text_if_append(t1, credit_used(q0), SEARCH_CREDIT@);
        lemma_value_if_append(v1, credit_used(q0), ArgValue::I64(q0.credit->0));
    }
    assert(sql@ == t2 && values_of(args@) == v2);
    if let Some(teacher) = &q.teacher {
        push_condition(sql, args, SEARCH_TEACHER, SqlArg::Text(teacher.clone()));
    }
    let ghost t3 = t2 + text_if(q0.teacher is Some, SEARCH_TEACHER@);
    let ghost v3 = v2 + value_if(q0.teacher is Some, ArgValue::Text(q0.teacher->0@));
    proof {
        lemma_text_if_append(t2, q0.teacher is Some, SEARCH_TEACHER@);
        lemma_value_if_append(v2, q0.teacher is Some, ArgValue::Text(q0.teacher->0@));
    }
    assert(sql@ == t3 && values_of(args@) == v3);
    if let Some(period) = q.period {
        if period > 0 {
            push_condition(sql, args, SEARCH_PERIOD, SqlArg::I64(period));
        }
    }
    let ghost t4 = t3 + text_if(period_used(q0), SEARCH_PERIOD@);
    let ghost v4 = v3 + value_if(period_used(q0), ArgValue::I64(q0.period->0));
    proof {
        lemma_text_if_append(t3, period_used(q0), SEARCH_PERIOD@);
        lemma_value_if_append(v3, period_used(q0), ArgValue::I64(q0.period->0));
    }
    assert(sql@ == t4 && values_of(args@) == v4);
    if let Some(day_of_week) = &q.day_of_week {
        push_condition(sql, args, SEARCH_DAY_OF_WEEK, SqlArg::Text(day_of_week.clone()));
    }
    let ghost t5 = t4 + text_if(q0.day_of_week is Some, SEARCH_DAY_OF_WEEK@);
    let ghost v5 = v4 + value_if(q0.day_of_week is Some, ArgValue::Text(q0.day_of_week->0@));
    proof {
        lemma_text_if_append(t4, q0.day_of_week is Some, SEARCH_DAY_OF_WEEK@);
        lemma_value_if_append(v4, q0.day_of_week is Some, ArgValue::Text(q0.day_of_week->0@));
    }
    assert(sql@ == t5 && values_of(args@) == v5);
    proof {
        lemma_concat5(
            t0,
            text_if(q0.type_ is Some, SEARCH_TYPE@),
            text_if(credit_used(q0), SEARCH_CREDIT@),
            text_if(q0.teacher is Some, SEARCH_TEACHER@),
            text_if(period_used(q0), SEARCH_PERIOD@),
            text_if(q0.day_of_week is Some, SEARCH_DAY_OF_WEEK@),
        );
        lemma_concat5(
            v0,
            value_if(q0.type_ is Some, ArgValue::Text(q0.type_->0@)),
            value_if(credit_used(q0), ArgValue::I64(q0.credit->0)),
            value_if(q0.teacher is Some, ArgValue::Text(q0.teacher->0@)),
            value_if(period_used(q0), ArgValue::I64(q0.period->0)),
            value_if(q0.day_of_week is Some, ArgValue::Text(q0.day_of_week->0@)),
        );
    }
}

pub(crate) proof fn lemma_keywords_step(
    q: SearchCoursesQuery,
    t: Seq<char>,
    v: Seq<ArgValue>,
    sql: Seq<char>,
    vals: Seq<ArgValue>,
)
    requires
        q.keywords is None ==> sql == t && vals == v,
        q.keywords is Some ==> sql == t + SEARCH_KEYWORDS_OPEN@ + repeat(
            SEARCH_NAME_LIKE@,
            split_on_space_spec(q.keywords->0@).len(),
        ) + SEARCH_KEYWORDS_MID@ + repeat(
            SEARCH_KEYWORDS_LIKE@,
            split_on_space_spec(q.keywords->0@).len(),
        ) + SEARCH_KEYWORDS_CLOSE@,
        q.keywords is Some ==> vals == v + like_values(split_on_space_spec(q.keywords->0@))
            + like_values(split_on_space_spec(q.keywords->0@)),
    ensures
        sql == t + keywords_condition(q),
        vals == v + like_values(keyword_words(q)) + like_values(keyword_words(q)),
{
    if q.keywords is None {
        assert(t + Seq::<char>::empty() =~= t);
        assert(keyword_words(q) =~= Seq::<Seq<char>>::empty());
        assert(like_values(keyword_words(q)) =~= Seq::<ArgValue>::empty());
        assert(v + Seq::<ArgValue>::empty() + Seq::<ArgValue>::empty() =~= v);
    } else {
        let n = keyword_words(q).len();
        assert(t + keywords_condition(q) =~= t + SEARCH_KEYWORDS_OPEN@ + repeat(SEARCH_NAME_LIKE@, n)
            + SEARCH_KEYWORDS_MID@ + repeat(SEARCH_KEYWORDS_LIKE@, n) + SEARCH_KEYWORDS_CLOSE@);
    }
}

/// Law: a credit condition that is not positive is ignored: the search is
/// the same as without any credit condition.
pub proof fn lemma_nonpositive_credit_ignored(q: SearchCoursesQuery, c: i64, limit: i64, offset: i64)
    requires
        c <= 0,
    ensures
        course_search_sql(SearchCoursesQuery { credit: Some(c), ..q }) == course_search_sql(
            SearchCoursesQuery { credit: None, ..q },
        ),
        course_search_values(SearchCoursesQuery { credit: Some(c), ..q }, limit, offset)
            == course_search_values(SearchCoursesQuery { credit: None, ..q }, limit, offset),
{
    reveal(course_search_sql);
    reveal(course_search_values);
    let q1 = SearchCoursesQuery { credit: Some(c), ..q };
    let q2 = SearchCoursesQuery { credit: None, ..q };
    assert(basic_conditions_sql(q1) == basic_conditions_sql(q2));
    assert(basic_conditions_values(q1) == basic_conditions_values(q2));
    assert(keywords_condition(q1) == keywords_condition(q2));
    assert(keyword_words(q1) == keyword_words(q2));
}

/// Law: a period condition that is not positive is ignored: the search is
/// the same as without any period condition.
pub proof fn lemma_nonpositive_period_ignored(q: SearchCoursesQuery, p: i64, limit: i64, offset: i64)
    requires
        p <= 0,
    ensures
        course_search_sql(SearchCoursesQuery { period: Some(p), ..q }) == course_search_sql(
            SearchCoursesQuery { period: None, ..q },
        ),
        course_search_values(SearchCoursesQuery { period: Some(p), ..q }, limit, offset)
            == course_search_values(SearchCoursesQuery { period: None, ..q }, limit, offset),
{
    reveal(course_search_sql);
    reveal(course_search_values);
    let q1 = SearchCoursesQuery { period: Some(p), ..q };
    let q2 = SearchCoursesQuery { period: None, ..q };
    assert(basic_conditions_sql(q1) == basic_conditions_sql(q2));
    assert(basic_conditions_values(q1) == basic_conditions_values(q2));
    assert(keywords_condition(q1) == keywords_condition(q2));
    assert(keyword_words(q1) == keyword_words(q2));
}

/// The part of the search text before the credit condition: the fixed
/// head, then the type condition when a type is given.
pub open spec fn head_before_credit(q: SearchCoursesQuery) -> Seq<char> {
    SEARCH_SELECT@ + SEARCH_FROM@ + SEARCH_WHERE@ + if q.type_ is Some {
        SEARCH_TYPE@
    } else {
        Seq::empty()
    }
}

/// The part of the search text before the period condition: the fixed
/// head, then the type, positive credit and teacher conditions that are
/// given.
pub open spec fn head_before_period(q: SearchCoursesQuery) -> Seq<char> {
    head_before_credit(q) + (if q.credit matches Some(c) && c > 0 {
        SEARCH_CREDIT@
    } else {
        Seq::empty()
    }) + if q.teacher is Some {
        SEARCH_TEACHER@
    } else {
        Seq::empty()
    }
}

proof fn lemma_head_counts(q: SearchCoursesQuery)
    ensures
        placeholder_count(head_before_credit(q)) == if q.type_ is Some { 1int } else { 0 },
        placeholder_count(head_before_period(q)) == (if q.type_ is Some { 1int } else { 0 }) + (
        if q.credit matches Some(c) && c > 0 {
            1int
        } else {
            0
        }) + (if q.teacher is Some { 1int } else { 0 }),
{
    lemma_search_literals();
    let fixed = SEARCH_SELECT@ + SEARCH_FROM@ + SEARCH_WHERE@;
    let t_type = text_if(q.type_ is Some, SEARCH_TYPE@);
    let t_credit = text_if(credit_used(q), SEARCH_CREDIT@);
    let t_teacher = text_if(q.teacher is Some, SEARCH_TEACHER@);
    assert(head_before_credit(q) =~= fixed + t_type);
    assert(head_before_period(q) =~= fixed + t_type + t_credit + t_teacher);
    lemma_text_if_count(q.type_ is Some, SEARCH_TYPE@, 1);
    lemma_text_if_count(credit_used(q), SEARCH_CREDIT@, 1);
    lemma_text_if_count(q.teacher is Some, SEARCH_TEACHER@, 1);
    lemma_placeholders_concat(SEARCH_SELECT@, SEARCH_FROM@);
    lemma_placeholders_concat(SEARCH_SELECT@ + SEARCH_FROM@, SEARCH_WHERE@);
    lemma_placeholders_concat(fixed, t_type);
    lemma_placeholders_concat(fixed + t_type, t_credit);
    lemma_placeholders_concat(fixed + t_type + t_credit, t_teacher);
}

/// The search text after the basic conditions.
spec fn tail_text(q: SearchCoursesQuery) -> Seq<char> {
    keywords_condition(q) + text_if(q.status is Some, SEARCH_STATUS@) + SEARCH_ORDER@
        + SEARCH_LIMIT@
}

/// The bound values after those of the basic conditions.
spec fn tail_values(q: SearchCoursesQuery, limit: i64, offset: i64) -> Seq<ArgValue> {
    like_values(keyword_words(q)) + like_values(keyword_words(q)) + value_if(
        q.status is Some,
        ArgValue::Text(q.status->0@),
    ) + seq![ArgValue::I64((limit + 1) as i64), ArgValue::I64(offset)]
}

proof fn lemma_assoc5<A>(a: Seq<A>, b: Seq<A>, c: Seq<A>, d: Seq<A>, e: Seq<A>)
    ensures
        a + b + c + d + e == a + (b + c + d + e),
{
    assert(a + b + c + d + e =~= a + (b + c + d + e));
}

/// Inserting `x` after the first piece of a five-piece condition list.
proof fn lemma_insert_second<A>(h: Seq<A>, p1: Seq<A>, x: Seq<A>, p3: Seq<A>, p4: Seq<A>, p5: Seq<A>, t: Seq<A>)
    ensures
        ({
            let with = h + (p1 + x + p3 + p4 + p5) + t;
            let without = h + (p1 + Seq::<A>::empty() + p3 + p4 + p5) + t;
            let head = h + p1;
            &&& without.take(head.len() as int) == head
            &&& with == head + x + without.skip(head.len() as int)
        }),
{
    let with = h + (p1 + x + p3 + p4 + p5) + t;
    let without = h + (p1 + Seq::<A>::empty() + p3 + p4 + p5) + t;
    let head = h + p1;
    let rest = p3 + p4 + p5 + t;
    assert(without =~= head + rest);
    assert(with =~= head + x + rest);
    assert((head + rest).take(head.len() as int) =~= head);
    assert((head + rest).skip(head.len() as int) =~= rest);
}

/// Inserting `x` after the first three pieces of a five-piece condition
/// list.
proof fn lemma_insert_fourth<A>(h: Seq<A>, p1: Seq<A>, p2: Seq<A>, p3: Seq<A>, x: Seq<A>, p5: Seq<A>, t: Seq<A>)
    ensures
        ({
            let with = h + (p1 + p2 + p3 + x + p5) + t;
            let without = h + (p1 + p2 + p3 + Seq::<A>::empty() + p5) + t;
            let head = h + p1 + p2 + p3;
            &&& without.take(head.len() as int) == head
            &&& with == head + x + without.skip(head.len() as int)
        }),
{
    let with = h + (p1 + p2 + p3 + x + p5) + t;
    let without = h + (p1 + p2 + p3 + Seq::<A>::empty() + p5) + t;
    let head = h + p1 + p2 + p3;
    let rest = p5 + t;
    assert(without =~= head + rest);
    assert(with =~= head + x + rest);
    assert((head + rest).take(head.len() as int) =~= head);
    assert((head + rest).skip(head.len() as int) =~= rest);
}

/// Inserting one value after the first piece of a five-piece value list.
proof fn lemma_insert_value_second<A>(p1: Seq<A>, x: A, p3: Seq<A>, p4: Seq<A>, p5: Seq<A>, t: Seq<A>)
    ensures
        (p1 + seq![x] + p3 + p4 + p5) + t == ((p1 + Seq::<A>::empty() + p3 + p4 + p5) + t).insert(
            p1.len() as int,
            x,
        ),
{
    assert((p1 + seq![x] + p3 + p4 + p5) + t =~= ((p1 + Seq::<A>::empty() + p3 + p4 + p5)
        + t).insert(p1.len() as int, x));
}

/// Inserting one value after the first three pieces of a five-piece value
/// list.
proof fn lemma_insert_value_fourth<A>(p1: Seq<A>, p2: Seq<A>, p3: Seq<A>, x: A, p5: Seq<A>, t: Seq<A>)
    ensures
        (p1 + p2 + p3 + seq![x] + p5) + t == ((p1 + p2 + p3 + Seq::<A>::empty() + p5) + t).insert(
            (p1.len() + p2.len() + p3.len()) as int,
            x,
        ),
{
    assert((p1 + p2 + p3 + seq![x] + p5) + t =~= ((p1 + p2 + p3 + Seq::<A>::empty() + p5)
        + t).insert((p1.len() + p2.len() + p3.len()) as int, x));
}

proof fn lemma_search_split(q: SearchCoursesQuery, limit: i64, offset: i64)
    ensures
        course_search_sql(q) == SEARCH_SELECT@ + SEARCH_FROM@ + SEARCH_WHERE@ + basic_conditions_sql(q)
            + tail_text(q),
        course_search_values(q, limit, offset) == basic_conditions_values(q) + tail_values(
            q,
            limit,
            offset,
        ),
{
    reveal(course_search_sql);
    reveal(course_search_values);
    let h = SEARCH_SELECT@ + SEARCH_FROM@ + SEARCH_WHERE@ + basic_conditions_sql(q);
    lemma_assoc5(
        h,
        keywords_condition(q),
        text_if(q.status is Some, SEARCH_STATUS@),
        SEARCH_ORDER@,
        SEARCH_LIMIT@,
    );
    let lv = like_values(keyword_words(q));
    lemma_assoc5(
        basic_conditions_values(q),
        lv,
        lv,
        value_if(q.status is Some, ArgValue::Text(q.status->0@)),
        seq![ArgValue::I64((limit + 1) as i64), ArgValue::I64(offset)],
    );
}

/// Law: a positive credit is always a filter. The search with credit `c`
/// is the search without a credit condition with ``AND `courses`.`credit`
/// = ?`` inserted right after the type condition, and the value `c`
/// inserted among the bound values at the index of that `?`.
pub proof fn lemma_positive_credit_used(q: SearchCoursesQuery, c: i64, limit: i64, offset: i64)
    requires
        c > 0,
    ensures
        ({
            let with = SearchCoursesQuery { credit: Some(c), ..q };
            let without = SearchCoursesQuery { credit: None, ..q };
            let head = head_before_credit(q);
            let k: int = if q.type_ is Some { 1 } else { 0 };
            &&& course_search_sql(without).take(head.len() as int) == head
            &&& course_search_sql(with) == head + SEARCH_CREDIT@ + course_search_sql(without).skip(
                head.len() as int,
            )
            &&& placeholder_count(head) == k
            &&& course_search_values(with, limit, offset) == course_search_values(
                without,
                limit,
                offset,
            ).insert(k, ArgValue::I64(c))
        }),
{
    let with = SearchCoursesQuery { credit: Some(c), ..q };
    let without = SearchCoursesQuery { credit: None, ..q };
    lemma_head_counts(q);
    lemma_search_split(with, limit, offset);
    lemma_search_split(without, limit, offset);
    assert(keyword_words(with) == keyword_words(q));
    assert(keyword_words(without) == keyword_words(q));
    assert(tail_text(with) == tail_text(q));
    assert(tail_text(without) == tail_text(q));
    assert(tail_values(with, limit, offset) == tail_values(q, limit, offset));
    assert(tail_values(without, limit, offset) == tail_values(q, limit, offset));
    lemma_insert_second(
        SEARCH_SELECT@ + SEARCH_FROM@ + SEARCH_WHERE@,
        text_if(q.type_ is Some, SEARCH_TYPE@),
        SEARCH_CREDIT@,
        text_if(q.teacher is Some, SEARCH_TEACHER@),
        text_if(period_used(q), SEARCH_PERIOD@),
        text_if(q.day_of_week is Some, SEARCH_DAY_OF_WEEK@),
        tail_text(q),
    );
    lemma_insert_value_second(
        value_if(q.type_ is Some, ArgValue::Text(q.type_->0@)),
        ArgValue::I64(c),
        value_if(q.teacher is Some, ArgValue::Text(q.teacher->0@)),
        value_if(period_used(q), ArgValue::I64(q.period->0)),
        value_if(q.day_of_week is Some, ArgValue::Text(q.day_of_week->0@)),
        tail_values(q, limit, offset),
    );
}

/// Law: a positive period is always a filter. The search with period `p`
/// is the search without a period condition with ``AND `courses`.`period`
/// = ?`` inserted right after the type, credit and teacher conditions, and
/// the value `p` inserted among the bound values at the index of that `?`.
pub proof fn lemma_positive_period_used(q: SearchCoursesQuery, p: i64, limit: i64, offset: i64)
    requires
        p > 0,
    ensures
        ({
            let with = SearchCoursesQuery { period: Some(p), ..q };
            let without = SearchCoursesQuery { period: None, ..q };
            let head = head_before_period(q);
            let k: int = (if q.type_ is Some { 1int } else { 0 }) + (if q.credit matches Some(c) && c
                > 0 {
                1int
            } else {
                0
            }) + (if q.teacher is Some { 1int } else { 0 });
            &&& course_search_sql(without).take(head.len() as int) == head
            &&& course_search_sql(with) == head + SEARCH_PERIOD@ + course_search_sql(without).skip(
                head.len() as int,
            )
            &&& placeholder_count(head) == k
            &&& course_search_values(with, limit, offset) == course_search_values(
                without,
                limit,
                offset,
            ).insert(k, ArgValue::I64(p))
        }),
{
    let with = SearchCoursesQuery { period: Some(p), ..q };
    let without = SearchCoursesQuery { period: None, ..q };
    lemma_head_counts(q);
    lemma_search_split(with, limit, offset);
    lemma_search_split(without, limit, offset);
    assert(keyword_words(with) == keyword_words(q));
    assert(keyword_words(without) == keyword_words(q));
    assert(tail_text(with) == tail_text(q));
    assert(tail_text(without) == tail_text(q));
    assert(tail_values(with, limit, offset) == tail_values(q, limit, offset));
    assert(tail_values(without, limit, offset) == tail_values(q, limit, offset));
    lemma_insert_fourth(
        SEARCH_SELECT@ + SEARCH_FROM@ + SEARCH_WHERE@,
        text_if(q.type_ is Some, SEARCH_TYPE@),
        text_if(credit_used(q), SEARCH_CREDIT@),
        text_if(q.teacher is Some, SEARCH_TEACHER@),
        SEARCH_PERIOD@,
        text_if(q.day_of_week is Some, SEARCH_DAY_OF_WEEK@),
        tail_text(q),
    );
    lemma_insert_value_fourth(
        value_if(q.type_ is Some, ArgValue::Text(q.type_->0@)),
        value_if(credit_used(q), ArgValue::I64(q.credit->0)),
        value_if(q.teacher is Some, ArgValue::Text(q.teacher->0@)),
        ArgValue::I64(p),
        value_if(q.day_of_week is Some, ArgValue::Text(q.day_of_week->0@)),
        tail_values(q, limit, offset),
    );
}

/// The part of the search text before the weekday condition: the fixed
/// head, then the type, positive credit, teacher and positive period
/// conditions that are given.
pub open spec fn head_before_day_of_week(q: SearchCoursesQuery) -> Seq<char> {
    head_before_period(q) + if q.period matches Some(p) && p > 0 {
        SEARCH_PERIOD@
    } else {
        Seq::empty()
    }
}

/// The part of the search text before the teacher condition: the fixed
/// head, then the type and positive credit conditions that are given.
pub open spec fn head_before_teacher(q: SearchCoursesQuery) -> Seq<char> {
    head_before_credit(q) + if q.credit matches Some(c) && c > 0 {
        SEARCH_CREDIT@
    } else {
        Seq::empty()
    }
}

proof fn lemma_more_head_counts(q: SearchCoursesQuery)
    ensures
        placeholder_count(SEARCH_SELECT@ + SEARCH_FROM@ + SEARCH_WHERE@) == 0,
        placeholder_count(head_before_teacher(q)) == (if q.type_ is Some { 1int } else { 0 }) + (
        if q.credit matches Some(c) && c > 0 {
            1int
        } else {
            0
        }),
        placeholder_count(head_before_day_of_week(q)) == (if q.type_ is Some { 1int } else { 0 }) + (
        if q.credit matches Some(c) && c > 0 {
            1int
        } else {
            0
        }) + (if q.teacher is Some { 1int } else { 0 }) + (if q.period matches Some(p) && p > 0 {
            1int
        } else {
            0
        }),
{
    lemma_search_literals();
    lemma_head_counts(q);
    lemma_placeholders_concat(SEARCH_SELECT@, SEARCH_FROM@);
    lemma_placeholders_concat(SEARCH_SELECT@ + SEARCH_FROM@, SEARCH_WHERE@);
    let t_credit = text_if(credit_used(q), SEARCH_CREDIT@);
    let t_period = text_if(period_used(q), SEARCH_PERIOD@);
    lemma_text_if_count(credit_used(q), SEARCH_CREDIT@, 1);
    lemma_text_if_count(period_used(q), SEARCH_PERIOD@, 1);
    assert(head_before_teacher(q) == head_before_credit(q) + t_credit);
    assert(head_before_day_of_week(q) == head_before_period(q) + t_period);
    lemma_placeholders_concat(head_before_credit(q), t_credit);
    lemma_placeholders_concat(head_before_period(q), t_period);
}

/// Inserting `x` as the first piece of a five-piece condition list.
proof fn lemma_insert_first<A>(h: Seq<A>, x: Seq<A>, p2: Seq<A>, p3: Seq<A>, p4: Seq<A>, p5: Seq<A>, t: Seq<A>)
    ensures
        ({
            let with = h + (x + p2 + p3 + p4 + p5) + t;
            let without = h + (Seq::<A>::empty() + p2 + p3 + p4 + p5) + t;
            &&& without.take(h.len() as int) == h
            &&& with == h + x + without.skip(h.len() as int)
        }),
{
    let rest = p2 + p3 + p4 + p5 + t;
    assert(h + (Seq::<A>::empty() + p2 + p3 + p4 + p5) + t =~= h + rest);
    assert(h + (x + p2 + p3 + p4 + p5) + t =~= h + x + rest);
    assert((h + rest).take(h.len() as int) =~= h);
    assert((h + rest).skip(h.len() as int) =~= rest);
}

/// Inserting `x` after the first two pieces of a five-piece condition list.
proof fn lemma_insert_third<A>(h: Seq<A>, p1: Seq<A>, p2: Seq<A>, x: Seq<A>, p4: Seq<A>, p5: Seq<A>, t: Seq<A>)
    ensures
        ({
            let with = h + (p1 + p2 + x + p4 + p5) + t;
            let without = h + (p1 + p2 + Seq::<A>::empty() + p4 + p5) + t;
            let head = h + p1 + p2;
            &&& without.take(head.len() as int) == head
            &&& with == head + x + without.skip(head.len() as int)
        }),
{
    let head = h + p1 + p2;
    let rest = p4 + p5 + t;
    assert(h + (p1 + p2 + Seq::<A>::empty() + p4 + p5) + t =~= head + rest);
    assert(h + (p1 + p2 + x + p4 + p5) + t =~= head + x + rest);
    assert((head + rest).take(head.len() as int) =~= head);
    assert((head + rest).skip(head.len() as int) =~= rest);
}

/// Inserting `x` as the last piece of a five-piece condition list.
proof fn lemma_insert_fifth<A>(h: Seq<A>, p1: Seq<A>, p2: Seq<A>, p3: Seq<A>, p4: Seq<A>, x: Seq<A>, t: Seq<A>)
    ensures
        ({
            let with = h + (p1 + p2 + p3 + p4 + x) + t;
            let without = h + (p1 + p2 + p3 + p4 + Seq::<A>::empty()) + t;
            let head = h + p1 + p2 + p3 + p4;
            &&& without.take(head.len() as int) == head
            &&& with == head + x + without.skip(head.len() as int)
        }),
{
    let head = h + p1 + p2 + p3 + p4;
    assert(h + (p1 + p2 + p3 + p4 + Seq::<A>::empty()) + t =~= head + t);
    assert(h + (p1 + p2 + p3 + p4 + x) + t =~= head + x + t);
    assert((head + t).take(head.len() as int) =~= head);
    assert((head + t).skip(head.len() as int) =~= t);
}

proof fn lemma_insert_value_first<A>(x: A, p2: Seq<A>, p3: Seq<A>, p4: Seq<A>, p5: Seq<A>, t: Seq<A>)
    ensures
        (seq![x] + p2 + p3 + p4 + p5) + t == ((Seq::<A>::empty() + p2 + p3 + p4 + p5) + t).insert(
            0,
            x,
        ),
{
    assert((seq![x] + p2 + p3 + p4 + p5) + t =~= ((Seq::<A>::empty() + p2 + p3 + p4 + p5)
        + t).insert(0, x));
}

proof fn lemma_insert_value_third<A>(p1: Seq<A>, p2: Seq<A>, x: A, p4: Seq<A>, p5: Seq<A>, t: Seq<A>)
    ensures
        (p1 + p2 + seq![x] + p4 + p5) + t == ((p1 + p2 + Seq::<A>::empty() + p4 + p5) + t).insert(
            (p1.len() + p2.len()) as int,
            x,
        ),
{
    assert((p1 + p2 + seq![x] + p4 + p5) + t =~= ((p1 + p2 + Seq::<A>::empty() + p4 + p5)
        + t).insert((p1.len() + p2.len()) as int, x));
}

proof fn lemma_insert_value_fifth<A>(p1: Seq<A>, p2: Seq<A>, p3: Seq<A>, p4: Seq<A>, x: A, t: Seq<A>)
    ensures
        (p1 + p2 + p3 + p4 + seq![x]) + t == ((p1 + p2 + p3 + p4 + Seq::<A>::empty()) + t).insert(
            (p1.len() + p2.len() + p3.len() + p4.len()) as int,
            x,
        ),
{
    assert((p1 + p2 + p3 + p4 + seq![x]) + t =~= ((p1 + p2 + p3 + p4 + Seq::<A>::empty())
        + t).insert((p1.len() + p2.len() + p3.len() + p4.len()) as int, x));
}

/// Law: a given type is always a filter. The search with type `t` is the
/// search without a type condition with ``AND `courses`.`type` = ?``
/// inserted right after the fixed head, which holds no placeholder, and
/// `t` bound first.
pub proof fn lemma_type_used(q: SearchCoursesQuery, t: String, limit: i64, offset: i64)
    ensures
        ({
            let with = SearchCoursesQuery { type_: Some(t), ..q };
            let without = SearchCoursesQuery { type_: None, ..q };
            let head = SEARCH_SELECT@ + SEARCH_FROM@ + SEARCH_WHERE@;
            &&& course_search_sql(without).take(head.len() as int) == head
            &&& course_search_sql(with) == head + SEARCH_TYPE@ + course_search_sql(without).skip(
                head.len() as int,
            )
            &&& placeholder_count(head) == 0
            &&& course_search_values(with, limit, offset) == course_search_values(
                without,
                limit,
                offset,
            ).insert(0, ArgValue::Text(t@))
        }),
{
    let with = SearchCoursesQuery { type_: Some(t), ..q };
    let without = SearchCoursesQuery { type_: None, ..q };
    lemma_more_head_counts(q);
    lemma_search_split(with, limit, offset);
    lemma_search_split(without, limit, offset);
    assert(keyword_words(with) == keyword_words(q));
    assert(keyword_words(without) == keyword_words(q));
    assert(tail_text(with) == tail_text(q));
    assert(tail_text(without) == tail_text(q));
    assert(tail_values(with, limit, offset) == tail_values(q, limit, offset));
    assert(tail_values(without, limit, offset) == tail_values(q, limit, offset));
    lemma_insert_first(
        SEARCH_SELECT@ + SEARCH_FROM@ + SEARCH_WHERE@,
        SEARCH_TYPE@,
        text_if(credit_used(q), SEARCH_CREDIT@),
        text_if(q.teacher is Some, SEARCH_TEACHER@),
        text_if(period_used(q), SEARCH_PERIOD@),
        text_if(q.day_of_week is Some, SEARCH_DAY_OF_WEEK@),
        tail_text(q),
    );
    lemma_insert_value_first(
        ArgValue::Text(t@),
        value_if(credit_used(q), ArgValue::I64(q.credit->0)),
        value_if(q.teacher is Some, ArgValue::Text(q.teacher->0@)),
        value_if(period_used(q), ArgValue::I64(q.period->0)),
        value_if(q.day_of_week is Some, ArgValue::Text(q.day_of_week->0@)),
        tail_values(q, limit, offset),
    );
}

/// Law: a given teacher is always a filter. The search with teacher `t`
/// is the search without a teacher condition with ``AND `users`.`name` =
/// ?`` inserted right after the type and positive credit conditions, and
/// `t` bound at the index of that `?`.
pub proof fn lemma_teacher_used(q: SearchCoursesQuery, t: String, limit: i64, offset: i64)
    ensures
        ({
            let with = SearchCoursesQuery { teacher: Some(t), ..q };
            let without = SearchCoursesQuery { teacher: None, ..q };
            let head = head_before_teacher(q);
            let k: int = (if q.type_ is Some { 1int } else { 0 }) + (if q.credit matches Some(c) && c
                > 0 {
                1int
            } else {
                0
            });
            &&& course_search_sql(without).take(head.len() as int) == head
            &&& course_search_sql(with) == head + SEARCH_TEACHER@ + course_search_sql(without).skip(
                head.len() as int,
            )
            &&& placeholder_count(head) == k
            &&& course_search_values(with, limit, offset) == course_search_values(
                without,
                limit,
                offset,
            ).insert(k, ArgValue::Text(t@))
        }),
{
    let with = SearchCoursesQuery { teacher: Some(t), ..q };
    let without = SearchCoursesQuery { teacher: None, ..q };
    lemma_more_head_counts(q);
    lemma_search_split(with, limit, offset);
    lemma_search_split(without, limit, offset);
    assert(keyword_words(with) == keyword_words(q));
    assert(keyword_words(without) == keyword_words(q));
    assert(tail_text(with) == tail_text(q));
    assert(tail_text(without) == tail_text(q));
    assert(tail_values(with, limit, offset) == tail_values(q, limit, offset));
    assert(tail_values(without, limit, offset) == tail_values(q, limit, offset));
    lemma_insert_third(
        SEARCH_SELECT@ + SEARCH_FROM@ + SEARCH_WHERE@,
        text_if(q.type_ is Some, SEARCH_TYPE@),
        text_if(credit_used(q), SEARCH_CREDIT@),
        SEARCH_TEACHER@,
        text_if(period_used(q), SEARCH_PERIOD@),
        text_if(q.day_of_week is Some, SEARCH_DAY_OF_WEEK@),
        tail_text(q),
    );
    lemma_insert_value_third(
        value_if(q.type_ is Some, ArgValue::Text(q.type_->0@)),
        value_if(credit_used(q), ArgValue::I64(q.credit->0)),
        ArgValue::Text(t@),
        value_if(period_used(q), ArgValue::I64(q.period->0)),
        value_if(q.day_of_week is Some, ArgValue::Text(q.day_of_week->0@)),
        tail_values(q, limit, offset),
    );
}

/// Law: a given weekday is always a filter. The search with weekday `d`
/// is the search without a weekday condition with ``AND
/// `courses`.`day_of_week` = ?`` inserted right after the type, positive
/// credit, teacher and positive period conditions, and `d` bound at the
/// index of that `?`.
pub proof fn lemma_day_of_week_used(q: SearchCoursesQuery, d: String, limit: i64, offset: i64)
    ensures
        ({
            let with = SearchCoursesQuery { day_of_week: Some(d), ..q };
            let without = SearchCoursesQuery { day_of_week: None, ..q };
            let head = head_before_day_of_week(q);
            let k: int = (if q.type_ is Some { 1int } else { 0 }) + (if q.credit matches Some(c) && c
                > 0 {
                1int
            } else {
                0
            }) + (if q.teacher is Some { 1int } else { 0 }) + (if q.period matches Some(p) && p > 0 {
                1int
            } else {
                0
            });
            &&& course_search_sql(without).take(head.len() as int) == head
            &&& course_search_sql(with) == head + SEARCH_DAY_OF_WEEK@ + course_search_sql(
                without,
            ).skip(head.len() as int)
            &&& placeholder_count(head) == k
            &&& course_search_values(with, limit, offset) == course_search_values(
                without,
                limit,
                offset,
            ).insert(k, ArgValue::Text(d@))
        }),
{
    let with = SearchCoursesQuery { day_of_week: Some(d), ..q };
    let without = SearchCoursesQuery { day_of_week: None, ..q };
    lemma_more_head_counts(q);
    lemma_search_split(with, limit, offset);
    lemma_search_split(without, limit, offset);
    assert(keyword_words(with) == keyword_words(q));
    assert(keyword_words(without) == keyword_words(q));
    assert(tail_text(with) == tail_text(q));
    assert(tail_text(without) == tail_text(q));
    assert(tail_values(with, limit, offset) == tail_values(q, limit, offset));
    assert(tail_values(without, limit, offset) == tail_values(q, limit, offset));
    lemma_insert_fifth(
        SEARCH_SELECT@ + SEARCH_FROM@ + SEARCH_WHERE@,
        text_if(q.type_ is Some, SEARCH_TYPE@),
        text_if(credit_used(q), SEARCH_CREDIT@),
        text_if(q.teacher is Some, SEARCH_TEACHER@),
        text_if(period_used(q), SEARCH_PERIOD@),
        SEARCH_DAY_OF_WEEK@,
        tail_text(q),
    );
    lemma_insert_value_fifth(
        value_if(q.type_ is Some, ArgValue::Text(q.type_->0@)),
        value_if(credit_used(q), ArgValue::I64(q.credit->0)),
        value_if(q.teacher is Some, ArgValue::Text(q.teacher->0@)),
        value_if(period_used(q), ArgValue::I64(q.period->0)),
        ArgValue::Text(d@),
        tail_values(q, limit, offset),
    );
}

proof fn lemma_insert_before_tail<A>(head: Seq<A>, x: Seq<A>, rest: Seq<A>)
    ensures
        (head + rest).take(head.len() as int) == head,
        head + x + rest == head + x + (head + rest).skip(head.len() as int),
{
    assert((head + rest).take(head.len() as int) =~= head);
    assert((head + rest).skip(head.len() as int) =~= rest);
}

proof fn lemma_insert_value_before_page<A>(b: Seq<A>, l: Seq<A>, x: A, page: Seq<A>)
    ensures
        b + l + l + seq![x] + page == (b + l + l + Seq::<A>::empty() + page).insert(
            (b.len() + 2 * l.len()) as int,
            x,
        ),
{
    assert(b + l + l + seq![x] + page =~= (b + l + l + Seq::<A>::empty() + page).insert(
        (b.len() + 2 * l.len()) as int,
        x,
    ));
}

proof fn lemma_ends_with<A>(p: Seq<A>, t: Seq<A>)
    ensures
        (p + t).skip((p + t).len() - t.len()) == t,
{
    assert((p + t).skip((p + t).len() - t.len()) =~= t);
}

proof fn lemma_last_two<A>(p: Seq<A>, a: A, b: A)
    ensures
        (p + seq![a, b]).len() == p.len() + 2,
        (p + seq![a, b])[p.len() + 1int] == b,
        (p + seq![a, b])[p.len() as int] == a,
{
}

proof fn lemma_status_head_count(q: SearchCoursesQuery)
    ensures
        placeholder_count(SEARCH_SELECT@ + SEARCH_FROM@ + SEARCH_WHERE@ + basic_conditions_sql(q)
            + keywords_condition(q)) == basic_conditions_values(q).len() + 2 * like_values(
            keyword_words(q),
        ).len(),
{
    lemma_search_literals();
    lemma_basic_conditions_count(q);
    lemma_keywords_condition_count(q);
    let h0 = SEARCH_SELECT@ + SEARCH_FROM@ + SEARCH_WHERE@;
    lemma_placeholders_concat(SEARCH_SELECT@, SEARCH_FROM@);
    lemma_placeholders_concat(SEARCH_SELECT@ + SEARCH_FROM@, SEARCH_WHERE@);
    lemma_placeholders_concat(h0, basic_conditions_sql(q));
    lemma_placeholders_concat(h0 + basic_conditions_sql(q), keywords_condition(q));
}

/// Law: a given status is always a filter. The search with status `st`
/// is the search without a status condition with ``AND `courses`.`status`
/// = ?`` inserted right after the keyword condition, and `st` bound at the
/// index of that `?`, counted over the text before it.
pub proof fn lemma_status_used(q: SearchCoursesQuery, st: String, limit: i64, offset: i64)
    ensures
        ({
            let with = SearchCoursesQuery { status: Some(st), ..q };
            let without = SearchCoursesQuery { status: None, ..q };
            let head = SEARCH_SELECT@ + SEARCH_FROM@ + SEARCH_WHERE@ + basic_conditions_sql(q)
                + keywords_condition(q);
            let k = placeholder_count(head) as int;
            &&& course_search_sql(without).take(head.len() as int) == head
            &&& course_search_sql(with) == head + SEARCH_STATUS@ + course_search_sql(without).skip(
                head.len() as int,
            )
            &&& course_search_values(with, limit, offset) == course_search_values(
                without,
                limit,
                offset,
            ).insert(k, ArgValue::Text(st@))
        }),
{
    let with = SearchCoursesQuery { status: Some(st), ..q };
    let without = SearchCoursesQuery { status: None, ..q };
    lemma_search_split(with, limit, offset);
    lemma_search_split(without, limit, offset);
    assert(keyword_words(with) == keyword_words(q));
    assert(keyword_words(without) == keyword_words(q));
    assert(basic_conditions_sql(with) == basic_conditions_sql(q));
    assert(basic_conditions_sql(without) == basic_conditions_sql(q));
    assert(basic_conditions_values(with) == basic_conditions_values(q));
    assert(basic_conditions_values(without) == basic_conditions_values(q));
    assert(keywords_condition(with) == keywords_condition(q));
    assert(keywords_condition(without) == keywords_condition(q));
    let head = SEARCH_SELECT@ + SEARCH_FROM@ + SEARCH_WHERE@ + basic_conditions_sql(q)
        + keywords_condition(q);
    let rest = SEARCH_ORDER@ + SEARCH_LIMIT@;
    lemma_assoc5(
        SEARCH_SELECT@ + SEARCH_FROM@ + SEARCH_WHERE@ + basic_conditions_sql(q),
        keywords_condition(q),
        text_if(false, SEARCH_STATUS@),
        SEARCH_ORDER@,
        SEARCH_LIMIT@,
    );
    assert(Seq::<char>::empty() + SEARCH_ORDER@ + SEARCH_LIMIT@ =~= rest);
    assert(course_search_sql(without) == head + rest);
    lemma_assoc5(
        SEARCH_SELECT@ + SEARCH_FROM@ + SEARCH_WHERE@ + basic_conditions_sql(q),
        keywords_condition(q),
        SEARCH_STATUS@,
        SEARCH_ORDER@,
        SEARCH_LIMIT@,
    );
    assert(SEARCH_STATUS@ + SEARCH_ORDER@ + SEARCH_LIMIT@ =~= SEARCH_STATUS@ + rest);
    assert(head + SEARCH_STATUS@ + rest =~= head + (SEARCH_STATUS@ + rest));
    assert(keywords_condition(q) + SEARCH_STATUS@ + SEARCH_ORDER@ + SEARCH_LIMIT@ =~= keywords_condition(q) + (SEARCH_STATUS@ + rest));
    assert(course_search_sql(with) == head + SEARCH_STATUS@ + rest);
    lemma_insert_before_tail(head, SEARCH_STATUS@, rest);
    lemma_status_head_count(q);
    let bv = basic_conditions_values(q);
    let lv = like_values(keyword_words(q));
    let page = seq![ArgValue::I64((limit + 1) as i64), ArgValue::I64(offset)];
    assert(tail_values(without, limit, offset) =~= lv + lv + Seq::<ArgValue>::empty() + page);
    assert(tail_values(with, limit, offset) =~= lv + lv + seq![ArgValue::Text(st@)] + page);
    assert(course_search_values(without, limit, offset) =~= bv + lv + lv + Seq::<ArgValue>::empty() + page);
    assert(course_search_values(with, limit, offset) =~= bv + lv + lv + seq![ArgValue::Text(st@)] + page);
    lemma_insert_value_before_page(bv, lv, ArgValue::Text(st@), page);
}

/// Law: the page of the course search is chosen by the last two bound
/// values, one row more than `limit` and then `offset`, whatever the
/// conditions; the text ends with the page clause ``LIMIT ? OFFSET ?``.
pub proof fn lemma_course_search_page(q: SearchCoursesQuery, limit: i64, offset: i64)
    requires
        limit < i64::MAX,
    ensures
        ({
            let v = course_search_values(q, limit, offset);
            let n = v.len() as int;
            let t = course_search_sql(q);
            let page = " LIMIT ? OFFSET ?"@;
            &&& n >= 2
            &&& v[n - 1] == ArgValue::I64(offset)
            &&& v[n - 2] matches ArgValue::I64(x) && x == limit + 1
            &&& t.len() >= page.len() && t.skip(t.len() - page.len()) == page
        }),
{
    reveal(course_search_sql);
    reveal(course_search_values);
    let pv = basic_conditions_values(q) + like_values(keyword_words(q)) + like_values(keyword_words(q))
        + value_if(q.status is Some, ArgValue::Text(q.status->0@));
    lemma_last_two(pv, ArgValue::I64((limit + 1) as i64), ArgValue::I64(offset));
    let pt = SEARCH_SELECT@ + SEARCH_FROM@ + SEARCH_WHERE@ + basic_conditions_sql(q)
        + keywords_condition(q) + text_if(q.status is Some, SEARCH_STATUS@) + SEARCH_ORDER@;
    lemma_ends_with(pt, SEARCH_LIMIT@);
    reveal_strlit(" LIMIT ? OFFSET ?");
}

proof fn lemma_twice_after<A>(b: Seq<A>, l: Seq<A>, r: Seq<A>, pg: Seq<A>)
    ensures
        (b + (l + l + r + pg)).len() >= b.len() + 2 * l.len(),
        forall|i: int|
            0 <= i < l.len() ==> (b + (l + l + r + pg))[b.len() + i] == l[i] && (b + (l + l + r
                + pg))[b.len() + l.len() + i] == l[i],
{
    let v = b + (l + l + r + pg);
    assert forall|i: int| 0 <= i < l.len() implies v[b.len() + i] == l[i] && v[b.len() + l.len()
        + i] == l[i] by {
        assert((l + l + r + pg)[i] == l[i]);
        assert((l + l + r + pg)[l.len() + i] == l[i]);
    }
}

/// Law: a keyword search binds, right after the values of the basic
/// conditions, `%w%` for each word `w` of the keywords split at every
/// space, in order, once for the name and then once more for the
/// keywords.
pub proof fn lemma_keyword_patterns(q: SearchCoursesQuery, k: String, limit: i64, offset: i64)
    ensures
        ({
            let with = SearchCoursesQuery { keywords: Some(k), ..q };
            let v = course_search_values(with, limit, offset);
            let words = split_on_space_spec(k@);
            let b = basic_conditions_values(q).len() as int;
            let n = words.len() as int;
            &&& v.len() >= b + 2 * n
            &&& forall|i: int|
                0 <= i < n ==> v[b + i] == ArgValue::Text(seq!['%'] + words[i] + seq!['%'])
                    && v[b + n + i] == ArgValue::Text(seq!['%'] + words[i] + seq!['%'])
        }),
{
    let with = SearchCoursesQuery { keywords: Some(k), ..q };
    lemma_search_split(with, limit, offset);
    assert(basic_conditions_values(with) == basic_conditions_values(q));
    let words = split_on_space_spec(k@);
    assert(keyword_words(with) == words);
    let lv = like_values(words);
    lemma_twice_after(
        basic_conditions_values(q),
        lv,
        value_if(with.status is Some, ArgValue::Text(with.status->0@)),
        seq![ArgValue::I64((limit + 1) as i64), ArgValue::I64(offset)],
    );
    assert forall|i: int| 0 <= i < words.len() implies lv[i] == ArgValue::Text(seq!['%'] + words[i]
        + seq!['%']) by {}
}

} // verus!
