//! Statements for the store: a text with numbered marks, and the values
//! that the marks stand for.

use vstd::prelude::*;
use vstd::string::StringExecFns;
use crate::time::TimeRange;

verus! {

/// A value handed to the store beside a statement, never written into it.
#[derive(Debug, Clone, PartialEq, Eq)]
pub enum SqlValue {
    Text(String),
    Int(i64),
    Range(TimeRange),
}

/// A bound value with its text as a sequence of characters.
pub enum SqlValueView {
    Text(Seq<char>),
    Int(i64),
    Range(TimeRange),
}

impl View for SqlValue {
    type V = SqlValueView;

    open spec fn view(&self) -> SqlValueView {
        match self {
            SqlValue::Text(s) => SqlValueView::Text(s@),
            SqlValue::Int(n) => SqlValueView::Int(*n),
            SqlValue::Range(r) => SqlValueView::Range(*r),
        }
    }
}

/// A statement for the store: its text, in which `$1`, `$2`, ... stand for
/// values, and the values in that order.
#[derive(Debug, Clone, PartialEq, Eq)]
pub struct Statement {
    pub text: String,
    pub params: Vec<SqlValue>,
}

/// A statement as its characters and the values it binds.
pub struct StatementView {
    pub text: Seq<char>,
    pub params: Seq<SqlValueView>,
}

impl View for Statement {
    type V = StatementView;

    open spec fn view(&self) -> StatementView {
        StatementView { text: self.text@, params: self.params@.map_values(|v: SqlValue| v@) }
    }
}

/// The character of a digit.
pub open spec fn digit(d: nat) -> char {
    if d == 0 {
        '0'
    } else if d == 1 {
        '1'
    } else if d == 2 {
        '2'
    } else if d == 3 {
        '3'
    } else if d == 4 {
        '4'
    } else if d == 5 {
        '5'
    } else if d == 6 {
        '6'
    } else if d == 7 {
        '7'
    } else if d == 8 {
        '8'
    } else {
        '9'
    }
}

/// A number in decimal digits, without leading zeros.
pub open spec fn decimal(n: nat) -> Seq<char>
    decreases n,
{
    if n < 10 {
        seq![digit(n)]
    } else {
        decimal(n / 10).push(digit(n % 10))
    }
}

/// The mark that stands in a statement's text for its `n`-th value.
pub open spec fn placeholder(n: nat) -> Seq<char> {
    seq!['$'] + decimal(n)
}

impl StatementView {
    /// The statement that is `text` and binds nothing.
    pub open spec fn begin(text: Seq<char>) -> StatementView {
        StatementView { text: text, params: Seq::empty() }
    }

    /// The statement with `text` behind it.
    pub open spec fn push_text(self, text: Seq<char>) -> StatementView {
        StatementView { text: self.text + text, params: self.params }
    }

    /// The statement with one more value and, behind its text, the mark that
    /// stands for that value.
    pub open spec fn bind(self, value: SqlValueView) -> StatementView {
        StatementView {
            text: self.text + placeholder((self.params.len() + 1) as nat),
            params: self.params.push(value),
        }
    }

    /// The statement with the clause behind it that says whose rows are
    /// meant. A name that is empty narrows nothing: with both empty the
    /// clause holds of every row, with one given the rows must bear it, with
    /// both given they must bear both.
    pub open spec fn push_identity(
        self,
        user_id: Seq<char>,
        resource_id: Seq<char>,
    ) -> StatementView {
        if user_id.len() == 0 && resource_id.len() == 0 {
            self.push_text("TRUE"@)
        } else if user_id.len() == 0 {
            self.push_text("resource_id = "@).bind(SqlValueView::Text(resource_id))
        } else if resource_id.len() == 0 {
            self.push_text("user_id = "@).bind(SqlValueView::Text(user_id))
        } else {
            self.push_text("user_id = "@).bind(SqlValueView::Text(user_id)).push_text(
                " AND resource_id = "@,
            ).bind(SqlValueView::Text(resource_id))
        }
    }

    /// The statement with the word of the direction behind it.
    pub open spec fn push_direction(self, desc: bool) -> StatementView {
        self.push_text(
            if desc {
                "DESC"@
            } else {
                "ASC"@
            },
        )
    }
}

/// The text of a digit.
fn digit_str(d: u128) -> (r: &'static str)
    requires
        d < 10,
    ensures
        r@ == seq![digit(d as nat)],
{
    proof {
        reveal_strlit("0");
        reveal_strlit("1");
        reveal_strlit("2");
        reveal_strlit("3");
        reveal_strlit("4");
        reveal_strlit("5");
        reveal_strlit("6");
        reveal_strlit("7");
        reveal_strlit("8");
        reveal_strlit("9");
    }
    let r = if d == 0 {
        "0"
    } else if d == 1 {
        "1"
    } else if d == 2 {
        "2"
    } else if d == 3 {
        "3"
    } else if d == 4 {
        "4"
    } else if d == 5 {
        "5"
    } else if d == 6 {
        "6"
    } else if d == 7 {
        "7"
    } else if d == 8 {
        "8"
    } else {
        "9"
    };
    assert(r@ =~= seq![digit(d as nat)]);
    r
}

/// Writes a number behind a text, in decimal digits.
fn push_decimal(out: &mut String, n: u128)
    ensures
        final(out)@ == old(out)@ + decimal(n as nat),
    decreases n,
{
    if n >= 10 {
        push_decimal(out, n / 10);
    }
    out.append(digit_str(n % 10));
    assert(final(out)@ =~= old(out)@ + decimal(n as nat));
}

impl Statement {
    /// A statement that is `text` and binds nothing yet.
    pub fn begin(text: &str) -> (s: Statement)
        ensures
            s@ == StatementView::begin(text@),
    {
        let s = Statement { text: String::from_str(text), params: Vec::new() };
        assert(s@.params =~= Seq::empty());
        s
    }

    /// Writes `text` behind the statement.
    pub fn push_text(&mut self, text: &str)
        ensures
            final(self)@ == old(self)@.push_text(text@),
    {
        self.text.append(text);
    }

    /// Binds one more value, and writes the mark that stands for it behind
    /// the statement. The value itself never enters the text.
    pub fn bind(&mut self, value: SqlValue)
        ensures
            final(self)@ == old(self)@.bind(value@),
    {
        let n: u128 = (self.params.len() as u128) + 1;
        proof {
            reveal_strlit("$");
        }
        self.text.append("$");
        push_decimal(&mut self.text, n);
        self.params.push(value);
        assert(self@.params =~= old(self)@.params.push(value@));
        assert(self@.text =~= old(self)@.text + placeholder(n as nat));
    }

    /// Writes the clause that says whose rows are meant, and binds the names
    /// that it speaks of.
    pub fn push_identity(&mut self, user_id: &str, resource_id: &str)
        ensures
            final(self)@ == old(self)@.push_identity(user_id@, resource_id@),
    {
        let no_user = user_id.is_empty();
        let no_resource = resource_id.is_empty();
        if no_user && no_resource {
            self.push_text("TRUE");
        } else if no_user {
            self.push_text("resource_id = ");
            self.bind(SqlValue::Text(String::from_str(resource_id)));
        } else if no_resource {
            self.push_text("user_id = ");
            self.bind(SqlValue::Text(String::from_str(user_id)));
        } else {
            self.push_text("user_id = ");
            self.bind(SqlValue::Text(String::from_str(user_id)));
            self.push_text(" AND resource_id = ");
            self.bind(SqlValue::Text(String::from_str(resource_id)));
        }
    }

    /// Writes the word of the direction in which rows are put in order.
    pub fn push_direction(&mut self, desc: bool)
        ensures
            final(self)@ == old(self)@.push_direction(desc),
    {
        if desc {
            self.push_text("DESC");
        } else {
            self.push_text("ASC");
        }
    }
}

} // verus!
