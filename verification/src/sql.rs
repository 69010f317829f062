//! The statement forms the engine accepts, and the reader that turns SQL
//! text into them.
//!
//! The dialect is deliberately small — the session layer delegates planning
//! to the engine, and this grammar is the engine's surface for it:
//!
//! ```text
//! statement := "SELECT " expr (", " expr)*
//!            | "SELECT * FROM " ident
//!            | "CREATE TABLE " ident
//!            | "INSERT INTO " ident " VALUES " expr
//! expr      := digits | "TRUE" | "FALSE" | "$" digits
//! ```
//!
//! Integer literals carry at most eighteen digits; a parameter `$k` has
//! `k >= 1` and at most six digits. Text that fits no form is a
//! [`Error::SyntaxError`], surfaced verbatim and never retried.

use vstd::prelude::*;

use crate::error::Error;
use crate::text::{
    all_digits, digits_val, find_char, first_of, has_prefix, is_ident, is_ident_str,
    lemma_digits_val_bound, lemma_first_of, pow10, starts_with, starts_with_at, str_eq,
};

verus! {

/// A value position inside a statement: a literal or a positional parameter.
#[derive(Clone, Copy, PartialEq, Eq, Structural, Debug)]
pub enum Expr {
    /// An integer literal.
    Lit(i64),
    /// A boolean literal.
    BoolLit(bool),
    /// The `k`th positional parameter, `k >= 1`.
    Param(usize),
}

/// One parsed statement.
#[derive(Clone, Debug)]
pub enum Stmt {
    /// `SELECT e1, e2, ...` — one row of computed values.
    SelectValues(Vec<Expr>),
    /// `SELECT * FROM t` — every row of a table.
    SelectAll(String),
    /// `CREATE TABLE t` — schema mutation, no tuple table.
    CreateTable(String),
    /// `INSERT INTO t VALUES e` — data mutation, no tuple table.
    Insert(String, Expr),
}

/// Spec-level image of a [`Stmt`], with names as `Seq<char>`.
pub enum StmtModel {
    /// `SELECT e1, e2, ...`
    SelectValues(Seq<Expr>),
    /// `SELECT * FROM t`
    SelectAll(Seq<char>),
    /// `CREATE TABLE t`
    CreateTable(Seq<char>),
    /// `INSERT INTO t VALUES e`
    Insert(Seq<char>, Expr),
}

impl View for Stmt {
    type V = StmtModel;

    open spec fn view(&self) -> StmtModel {
        match self {
            Stmt::SelectValues(es) => StmtModel::SelectValues(es@),
            Stmt::SelectAll(t) => StmtModel::SelectAll(t@),
            Stmt::CreateTable(t) => StmtModel::CreateTable(t@),
            Stmt::Insert(t, e) => StmtModel::Insert(t@, *e),
        }
    }
}

impl StmtModel {
    /// Whether the statement changes engine-visible state.
    pub open spec fn is_mutating(self) -> bool {
        self is CreateTable || self is Insert
    }

    /// Whether the statement produces a tuple table.
    pub open spec fn produces_rows(self) -> bool {
        self is SelectValues || self is SelectAll
    }
}

impl Stmt {
    /// Whether the statement changes engine-visible state.
    pub fn is_mutating(&self) -> (r: bool)
        ensures
            r == self@.is_mutating(),
    {
        match self {
            Stmt::CreateTable(_) => true,
            Stmt::Insert(_, _) => true,
            _ => false,
        }
    }

    /// Whether the statement produces a tuple table.
    pub fn produces_rows(&self) -> (r: bool)
        ensures
            r == self@.produces_rows(),
    {
        match self {
            Stmt::SelectValues(_) => true,
            Stmt::SelectAll(_) => true,
            _ => false,
        }
    }
}

/// The value of a digit run as an unsigned number, if it is one of one to
/// eighteen digits.
pub open spec fn spec_uint(s: Seq<char>) -> Option<int> {
    if 1 <= s.len() <= 18 && all_digits(s) {
        Some(digits_val(s))
    } else {
        None
    }
}

/// The expression a token denotes, if any.
pub open spec fn spec_expr(s: Seq<char>) -> Option<Expr> {
    if s == "TRUE"@ {
        Some(Expr::BoolLit(true))
    } else if s == "FALSE"@ {
        Some(Expr::BoolLit(false))
    } else if s.len() >= 2 && s[0] == '$' {
        let d = s.subrange(1, s.len() as int);
        if 1 <= d.len() <= 6 && all_digits(d) && digits_val(d) >= 1 {
            Some(Expr::Param(digits_val(d) as usize))
        } else {
            None
        }
    } else {
        match spec_uint(s) {
            Some(v) => Some(Expr::Lit(v as i64)),
            None => None,
        }
    }
}

/// The expressions of a `", "`-separated list starting at `from`, if the
/// whole remainder of `s` is such a list.
pub open spec fn spec_expr_list(s: Seq<char>, from: int) -> Option<Seq<Expr>>
    decreases s.len() - from,
{
    match first_of(s, from, ',') {
        None => match spec_expr(s.subrange(from, s.len() as int)) {
            Some(e) => Some(seq![e]),
            None => None,
        },
        Some(i) => if from < i && i + 2 <= s.len() && s[i + 1] == ' ' {
            match spec_expr(s.subrange(from, i)) {
                Some(e) => match spec_expr_list(s, i + 2) {
                    Some(rest) => Some(seq![e] + rest),
                    None => None,
                },
                None => None,
            }
        } else {
            None
        },
    }
}

/// The statement a full piece of SQL text denotes, if any.
pub open spec fn spec_parse(s: Seq<char>) -> Option<StmtModel> {
    if has_prefix(s, "SELECT * FROM "@) {
        let name = s.subrange(14, s.len() as int);
        if is_ident(name) {
            Some(StmtModel::SelectAll(name))
        } else {
            None
        }
    } else if has_prefix(s, "SELECT "@) {
        match spec_expr_list(s, 7) {
            Some(es) => Some(StmtModel::SelectValues(es)),
            None => None,
        }
    } else if has_prefix(s, "CREATE TABLE "@) {
        let name = s.subrange(13, s.len() as int);
        if is_ident(name) {
            Some(StmtModel::CreateTable(name))
        } else {
            None
        }
    } else if has_prefix(s, "INSERT INTO "@) {
        match first_of(s, 12, ' ') {
            Some(j) => {
                let name = s.subrange(12, j);
                if is_ident(name) && s.len() >= j + 8 && s.subrange(j, j + 8) == " VALUES "@ {
                    match spec_expr(s.subrange(j + 8, s.len() as int)) {
                        Some(e) => Some(StmtModel::Insert(name, e)),
                        None => None,
                    }
                } else {
                    None
                }
            },
            None => None,
        }
    } else {
        None
    }
}

/// Read a digit run `s[from..to]` as an unsigned number.
fn parse_uint(s: &str, from: usize, to: usize) -> (r: Option<u64>)
    requires
        from <= to <= s@.len(),
    ensures
        match r {
            Some(v) => spec_uint(s@.subrange(from as int, to as int)) == Some(v as int),
            None => spec_uint(s@.subrange(from as int, to as int)) is None,
        },
{
    let ghost sub = s@.subrange(from as int, to as int);
    if to == from || to - from > 18 {
        return None;
    }
    let mut acc: u64 = 0;
    let mut i: usize = from;
    while i < to
        invariant
            from <= i <= to <= s@.len(),
            1 <= to - from <= 18,
            sub == s@.subrange(from as int, to as int),
            all_digits(s@.subrange(from as int, i as int)),
            acc == digits_val(s@.subrange(from as int, i as int)),
            0 <= acc < pow10((i - from) as nat),
        decreases to - i,
    {
        let c = s.get_char(i);
        if !('0' <= c && c <= '9') {
            proof {
                assert(sub[i - from] == c);
            }
            return None;
        }
        let d: u64 = (c as u32 - '0' as u32) as u64;
        proof {
            let pre = s@.subrange(from as int, i as int);
            let nxt = s@.subrange(from as int, i as int + 1);
            assert(nxt.drop_last() =~= pre);
            assert(nxt.last() == c);
            assert(all_digits(nxt));
            lemma_digits_val_bound(nxt);
            assert(pow10(18) == 1000000000000000000) by {
                reveal_with_fuel(pow10, 19);
            }
            assert(pow10(((i - from) + 1) as nat) <= pow10(18)) by {
                lemma_pow10_mono(((i - from) + 1) as nat, 18);
            }
        }
        acc = acc * 10 + d;
        i += 1;
    }
    proof {
        assert(s@.subrange(from as int, i as int) == sub);
    }
    Some(acc)
}

/// `pow10` is monotone.
proof fn lemma_pow10_mono(a: nat, b: nat)
    requires
        a <= b,
    ensures
        pow10(a) <= pow10(b),
    decreases b,
{
    if a < b {
        lemma_pow10_mono(a, (b - 1) as nat);
        assert(pow10(b) == 10 * pow10((b - 1) as nat));
        assert(pow10(a) >= 1) by {
            lemma_pow10_pos(a);
        }
    }
}

/// `pow10` is positive.
proof fn lemma_pow10_pos(a: nat)
    ensures
        pow10(a) >= 1,
    decreases a,
{
    if a > 0 {
        lemma_pow10_pos((a - 1) as nat);
    }
}

/// The expression the token `s[from..to]` denotes, if any.
fn parse_expr(s: &str, from: usize, to: usize) -> (r: Option<Expr>)
    requires
        from <= to <= s@.len(),
    ensures
        r == spec_expr(s@.subrange(from as int, to as int)),
{
    proof {
        reveal_strlit("TRUE");
        reveal_strlit("FALSE");
    }
    let ghost sub = s@.subrange(from as int, to as int);
    let t = s.substring_char(from, to);
    if str_eq(t, "TRUE") {
        Some(Expr::BoolLit(true))
    } else if str_eq(t, "FALSE") {
        Some(Expr::BoolLit(false))
    } else if to - from >= 2 && s.get_char(from) == '$' {
        proof {
            assert(sub[0] == '$');
            assert(sub.subrange(1, sub.len() as int) =~= s@.subrange(from as int + 1, to as int));
        }
        if to - from - 1 <= 6 {
            match parse_uint(s, from + 1, to) {
                Some(v) => {
                    if v >= 1 {
                        Some(Expr::Param(v as usize))
                    } else {
                        None
                    }
                },
                None => None,
            }
        } else {
            None
        }
    } else {
        proof {
            if sub.len() >= 2 {
                assert(sub[0] == s@[from as int]);
            }
        }
        match parse_uint(s, from, to) {
            Some(v) => {
                proof {
                    lemma_digits_val_bound(sub);
                    assert(pow10(18) == 1000000000000000000) by {
                        reveal_with_fuel(pow10, 19);
                    }
                    lemma_pow10_mono(sub.len(), 18);
                }
                Some(Expr::Lit(v as i64))
            },
            None => None,
        }
    }
}

/// The expressions of the `", "`-separated list `s[from..]`, if the whole
/// remainder is such a list.
fn parse_expr_list(s: &str, from: usize) -> (r: Option<Vec<Expr>>)
    requires
        from <= s@.len(),
    ensures
        match r {
            Some(v) => spec_expr_list(s@, from as int) == Some(v@),
            None => spec_expr_list(s@, from as int) is None,
        },
    decreases s@.len() - from,
{
    let n = s.unicode_len();
    match find_char(s, from, ',') {
        None => {
            match parse_expr(s, from, n) {
                Some(e) => {
                    let v: Vec<Expr> = vec![e];
                    proof {
                        assert(v@ =~= seq![e]);
                    }
                    Some(v)
                },
                None => None,
            }
        },
        Some(i) => {
            proof {
                lemma_first_of(s@, from as int, ',');
            }
            if from < i && n - i >= 2 && s.get_char(i + 1) == ' ' {
                match parse_expr(s, from, i) {
                    Some(e) => {
                        match parse_expr_list(s, i + 2) {
                            Some(mut rest) => {
                                rest.insert(0, e);
                                proof {
                                    assert(rest@ =~= seq![e] + rest@.subrange(
                                        1,
                                        rest@.len() as int,
                                    ));
                                }
                                Some(rest)
                            },
                            None => None,
                        }
                    },
                    None => None,
                }
            } else {
                None
            }
        },
    }
}

/// Parse one piece of SQL text.
///
/// Returns the statement the text denotes, or [`Error::SyntaxError`]
/// exactly when the text fits no statement form.
pub fn parse(sql: &str) -> (r: Result<Stmt, Error>)
    ensures
        match r {
            Ok(st) => spec_parse(sql@) == Some(st@),
            Err(e) => spec_parse(sql@) is None && e@ is SyntaxError,
        },
{
    proof {
        reveal_strlit("SELECT * FROM ");
        reveal_strlit("SELECT ");
        reveal_strlit("CREATE TABLE ");
        reveal_strlit("INSERT INTO ");
        reveal_strlit(" VALUES ");
    }
    let n = sql.unicode_len();
    if starts_with(sql, "SELECT * FROM ") {
        let name = sql.substring_char(14, n);
        if is_ident_str(name) {
            Ok(Stmt::SelectAll(String::from_str(name)))
        } else {
            Err(syntax_error())
        }
    } else if starts_with(sql, "SELECT ") {
        match parse_expr_list(sql, 7) {
            Some(es) => Ok(Stmt::SelectValues(es)),
            None => Err(syntax_error()),
        }
    } else if starts_with(sql, "CREATE TABLE ") {
        let name = sql.substring_char(13, n);
        if is_ident_str(name) {
            Ok(Stmt::CreateTable(String::from_str(name)))
        } else {
            Err(syntax_error())
        }
    } else if starts_with(sql, "INSERT INTO ") {
        match find_char(sql, 12, ' ') {
            Some(j) => {
                let name = sql.substring_char(12, j);
                if is_ident_str(name) && starts_with_at(sql, j, " VALUES ") {
                    match parse_expr(sql, j + 8, n) {
                        Some(e) => Ok(Stmt::Insert(String::from_str(name), e)),
                        None => Err(syntax_error()),
                    }
                } else {
                    Err(syntax_error())
                }
            },
            None => Err(syntax_error()),
        }
    } else {
        Err(syntax_error())
    }
}

/// The error for text that fits no statement form.
fn syntax_error() -> (e: Error)
    ensures
        e@ is SyntaxError,
{
    Error::SyntaxError(String::from_str("statement does not fit any accepted form"))
}

} // verus!
