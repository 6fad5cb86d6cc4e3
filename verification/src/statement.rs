//! SQL statements as text plus the ordered values bound to its `?`
//! placeholders, and the counting of those placeholders.
use vstd::prelude::*;

verus! {

/// A value bound to one `?` placeholder of a statement.
#[derive(Debug, PartialEq, Eq)]
pub enum SqlArg {
    Text(String),
    U8(u8),
    I64(i64),
}

/// The mathematical value of a bound argument.
pub enum ArgValue {
    Text(Seq<char>),
    U8(u8),
    I64(i64),
}

impl View for SqlArg {
    type V = ArgValue;

    open spec fn view(&self) -> ArgValue {
        match self {
            SqlArg::Text(s) => ArgValue::Text(s@),
            SqlArg::U8(v) => ArgValue::U8(*v),
            SqlArg::I64(v) => ArgValue::I64(*v),
        }
    }
}

/// A statement ready to be sent: its SQL text and the values for its
/// placeholders, in the order in which they appear in the text.
pub struct Statement {
    pub sql: String,
    pub args: Vec<SqlArg>,
}

impl Statement {
    /// The text of the statement.
    pub open spec fn text(&self) -> Seq<char> {
        self.sql@
    }

    /// The bound values, in order.
    pub open spec fn values(&self) -> Seq<ArgValue> {
        values_of(self.args@)
    }

    /// Every placeholder of the text has exactly one bound value.
    pub open spec fn well_formed(&self) -> bool {
        placeholder_count(self.sql@) == self.args@.len()
    }
}

/// The values of a sequence of bound arguments.
pub open spec fn values_of(args: Seq<SqlArg>) -> Seq<ArgValue> {
    args.map_values(|a: SqlArg| a@)
}

/// `t` when `present`, nothing otherwise.
pub open spec fn text_if(present: bool, t: Seq<char>) -> Seq<char> {
    if present {
        t
    } else {
        Seq::empty()
    }
}

/// The one value `v` when `present`, nothing otherwise.
pub open spec fn value_if(present: bool, v: ArgValue) -> Seq<ArgValue> {
    if present {
        seq![v]
    } else {
        Seq::empty()
    }
}

/// Number of `?` among the first `n` characters of `s`.
pub open spec fn placeholders_upto(s: Seq<char>, n: nat) -> nat
    decreases n,
{
    if n == 0 {
        0
    } else {
        placeholders_upto(s, (n - 1) as nat) + if s[n - 1] == '?' {
            1nat
        } else {
            0nat
        }
    }
}

/// Number of `?` placeholders in an SQL text.
pub open spec fn placeholder_count(s: Seq<char>) -> nat {
    placeholders_upto(s, s.len())
}

/// `n` copies of `t`, one after the other.
pub open spec fn repeat(t: Seq<char>, n: nat) -> Seq<char>
    decreases n,
{
    if n == 0 {
        Seq::empty()
    } else {
        repeat(t, (n - 1) as nat) + t
    }
}

proof fn lemma_upto_prefix(a: Seq<char>, b: Seq<char>, n: nat)
    requires
        n <= a.len(),
    ensures
        placeholders_upto(a + b, n) == placeholders_upto(a, n),
    decreases n,
{
    if n > 0 {
        lemma_upto_prefix(a, b, (n - 1) as nat);
        assert((a + b)[n - 1] == a[n - 1]);
    }
}

proof fn lemma_upto_suffix(a: Seq<char>, b: Seq<char>, k: nat)
    requires
        k <= b.len(),
    ensures
        placeholders_upto(a + b, a.len() + k) == placeholder_count(a) + placeholders_upto(b, k),
    decreases k,
{
    if k == 0 {
        lemma_upto_prefix(a, b, a.len());
    } else {
        lemma_upto_suffix(a, b, (k - 1) as nat);
        assert((a + b)[a.len() + k - 1] == b[k - 1]);
    }
}

/// Placeholders of a concatenation are those of its two parts.
pub proof fn lemma_placeholders_concat(a: Seq<char>, b: Seq<char>)
    ensures
        placeholder_count(a + b) == placeholder_count(a) + placeholder_count(b),
{
    lemma_upto_suffix(a, b, b.len());
}

/// Placeholders of `n` copies of `t` are `n` times those of `t`.
pub proof fn lemma_placeholders_repeat(t: Seq<char>, n: nat)
    ensures
        placeholder_count(repeat(t, n)) == n * placeholder_count(t),
    decreases n,
{
    if n == 0 {
        assert(repeat(t, 0) =~= Seq::<char>::empty());
    } else {
        lemma_placeholders_repeat(t, (n - 1) as nat);
        lemma_placeholders_concat(repeat(t, (n - 1) as nat), t);
        assert(n * placeholder_count(t) == (n - 1) * placeholder_count(t) + placeholder_count(t))
            by (nonlinear_arith);
    }
}

/// Appends one condition and its value.
pub fn push_condition(sql: &mut String, args: &mut Vec<SqlArg>, text: &str, arg: SqlArg)
    ensures
        final(sql)@ == old(sql)@ + text@,
        values_of(final(args)@) == values_of(old(args)@).push(arg@),
{
    sql.append(text);
    let ghost before = args@;
    args.push(arg);
    assert(values_of(args@) =~= values_of(before).push(arg@));
}

/// Appending an optional text.
pub proof fn lemma_text_if_append(a: Seq<char>, b: bool, x: Seq<char>)
    ensures
        a + text_if(b, x) == if b {
            a + x
        } else {
            a
        },
{
    if !b {
        assert(a + Seq::<char>::empty() =~= a);
    }
}

/// Appending an optional value.
pub proof fn lemma_value_if_append(a: Seq<ArgValue>, b: bool, x: ArgValue)
    ensures
        a + value_if(b, x) == if b {
            a.push(x)
        } else {
            a
        },
{
    if !b {
        assert(a + Seq::<ArgValue>::empty() =~= a);
    } else {
        assert(a + seq![x] =~= a.push(x));
    }
}

} // verus!
