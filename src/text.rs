//! Text helpers of the import, export and reference-data layers: trimming
//! and number parsing of imported fields, code normalization, CSV quoting
//! and the truncation of error details.
use vstd::prelude::*;
use vstd::string::StringExecFns;
use crate::errors::{AppError, ErrorCode};
use crate::movement::opt_view;

verus! {

/// What `str::trim` makes of a text: leading and trailing whitespace removed.
pub uninterp spec fn trimmed(s: Seq<char>) -> Seq<char>;

/// What `str::parse::<i64>` makes of a text, `None` where it fails.
pub uninterp spec fn parsed_i64(s: Seq<char>) -> Option<i64>;

/// Relies on `str::trim`: the result depends on the characters alone, and
/// an empty text stays empty.
#[verifier::external_body]
fn trim_text(s: &str) -> (r: String)
    ensures
        r@ == trimmed(s@),
        s@.len() == 0 ==> r@.len() == 0,
{
    s.trim().to_string()
}

/// Relies on `str::parse::<i64>`: the result depends on the characters alone.
#[verifier::external_body]
fn parse_i64_text(s: &str) -> (r: Option<i64>)
    ensures
        r == parsed_i64(s@),
{
    s.parse::<i64>().ok()
}

pub open spec fn text_or_empty(value: Option<&str>) -> Seq<char> {
    match value {
        Some(v) => v@,
        None => Seq::empty(),
    }
}

/// The trimmed field, or `None` where nothing is left of it.
pub fn empty_to_none(value: Option<&str>) -> (r: Option<String>)
    ensures
        opt_view(r) == match value {
            Some(v) => if trimmed(v@).len() == 0 { None } else { Some(trimmed(v@)) },
            None => None::<Seq<char>>,
        },
{
    match value {
        Some(v) => {
            let t = trim_text(v);
            if t.unicode_len() == 0 {
                None
            } else {
                Some(t)
            }
        },
        None => None,
    }
}

/// A required integer field: a missing or blank field and a text that is no
/// integer are refused.
pub fn parse_i64(value: Option<&str>) -> (r: Result<i64, AppError>)
    ensures
        ({
            let t = trimmed(text_or_empty(value));
            match r {
                Ok(n) => t.len() > 0 && parsed_i64(t) == Some(n),
                Err(e) => e.code == ErrorCode::ValidationError && (t.len() == 0 || parsed_i64(t) is None),
            }
        }),
{
    let t = match value {
        Some(v) => trim_text(v),
        None => {
            proof {
                reveal_strlit("");
            }
            assert(""@ =~= Seq::<char>::empty());
            trim_text("")
        },
    };
    if t.unicode_len() == 0 {
        return Err(AppError::new(ErrorCode::ValidationError, "numeric field cannot be empty"));
    }
    match parse_i64_text(t.as_str()) {
        Some(n) => Ok(n),
        None => Err(AppError::new(ErrorCode::ValidationError, "numeric field is invalid")),
    }
}

/// An optional integer field: a missing or blank field gives `None`, a text
/// that is no integer is refused.
pub fn parse_i64_optional(value: Option<&str>) -> (r: Result<Option<i64>, AppError>)
    ensures
        ({
            let t = trimmed(text_or_empty(value));
            match r {
                Ok(None) => t.len() == 0,
                Ok(Some(n)) => t.len() > 0 && parsed_i64(t) == Some(n),
                Err(e) => e.code == ErrorCode::ValidationError && t.len() > 0 && parsed_i64(t) is None,
            }
        }),
{
    let t = match value {
        Some(v) => trim_text(v),
        None => {
            proof {
                reveal_strlit("");
            }
            assert(""@ =~= Seq::<char>::empty());
            trim_text("")
        },
    };
    if t.unicode_len() == 0 {
        return Ok(None);
    }
    match parse_i64_text(t.as_str()) {
        Some(n) => Ok(Some(n)),
        None => Err(AppError::new(ErrorCode::ValidationError, "numeric field is invalid")),
    }
}

/// `s` without its leading run of `upper` and `lower` characters.
pub open spec fn strip_leading(s: Seq<char>, upper: char, lower: char) -> Seq<char>
    decreases s.len(),
{
    if s.len() > 0 && (s[0] == upper || s[0] == lower) {
        strip_leading(s.subrange(1, s.len() as int), upper, lower)
    } else {
        s
    }
}

pub open spec fn all_ascii_digits(s: Seq<char>) -> bool {
    forall|i: int| 0 <= i < s.len() ==> '0' <= #[trigger] s[i] && s[i] <= '9'
}

/// The digits of a code once it is trimmed and its letter prefix, in either
/// case, is dropped; an empty or non-numeric rest is refused.
pub open spec fn code_digits(code: Seq<char>, upper: char, lower: char) -> Option<Seq<char>> {
    let d = strip_leading(trimmed(code), upper, lower);
    if d.len() > 0 && all_ascii_digits(d) {
        Some(d)
    } else {
        None
    }
}

fn normalize_code(code: &str, upper: char, lower: char) -> (r: Result<String, AppError>)
    ensures
        match code_digits(code@, upper, lower) {
            Some(d) => r is Ok && r->Ok_0@ == d,
            None => r is Err && r->Err_0.code == ErrorCode::ValidationError,
        },
{
    let t = trim_text(code);
    let n = t.unicode_len();
    let mut i: usize = 0;
    assert(t@.subrange(0, n as int) =~= t@);
    while i < n && (t.as_str().get_char(i) == upper || t.as_str().get_char(i) == lower)
        invariant
            n == t@.len(),
            t@ == trimmed(code@),
            i <= n,
            strip_leading(t@, upper, lower) == strip_leading(t@.subrange(i as int, n as int), upper, lower),
        decreases n - i,
    {
        assert(t@.subrange(i as int, n as int).subrange(1, n - i) =~= t@.subrange(i + 1, n as int));
        i = i + 1;
    }
    let ghost d = t@.subrange(i as int, n as int);
    assert(strip_leading(t@, upper, lower) == d);
    if i == n {
        return Err(AppError::new(ErrorCode::ValidationError, "code cannot be empty"));
    }
    let mut j: usize = i;
    while j < n
        invariant
            n == t@.len(),
            i <= j <= n,
            t@ == trimmed(code@),
            d == strip_leading(t@, upper, lower),
            d == t@.subrange(i as int, n as int),
            forall|k: int| 0 <= k < j - i ==> '0' <= #[trigger] d[k] && d[k] <= '9',
        decreases n - j,
    {
        let c = t.as_str().get_char(j);
        if !(c >= '0' && c <= '9') {
            assert(d[j - i] == c);
            assert(!all_ascii_digits(d));
            return Err(AppError::new(ErrorCode::ValidationError, "code may only hold digits"));
        }
        j = j + 1;
    }
    Ok(t.as_str().substring_char(i, n).to_string())
}

/// A rack code without its `R` prefix.
pub fn normalize_rack_code(code: &str) -> (r: Result<String, AppError>)
    ensures
        match code_digits(code@, 'R', 'r') {
            Some(d) => r is Ok && r->Ok_0@ == d,
            None => r is Err && r->Err_0.code == ErrorCode::ValidationError,
        },
{
    normalize_code(code, 'R', 'r')
}

/// A warehouse code without its `W` prefix.
pub fn normalize_warehouse_code(code: &str) -> (r: Result<String, AppError>)
    ensures
        match code_digits(code@, 'W', 'w') {
            Some(d) => r is Ok && r->Ok_0@ == d,
            None => r is Err && r->Err_0.code == ErrorCode::ValidationError,
        },
{
    normalize_code(code, 'W', 'w')
}

/// Whether a CSV field must be quoted: it holds a comma, a quote or a
/// line feed.
pub open spec fn needs_quoting(s: Seq<char>) -> bool {
    exists|i: int| 0 <= i < s.len() && (s[i] == ',' || s[i] == '"' || s[i] == '\n')
}

/// `s` with every quote doubled.
pub open spec fn double_quotes(s: Seq<char>) -> Seq<char>
    decreases s.len(),
{
    if s.len() == 0 {
        Seq::empty()
    } else {
        double_quotes(s.drop_last()) + if s.last() == '"' {
            seq!['"', '"']
        } else {
            seq![s.last()]
        }
    }
}

/// The CSV form of a field.
pub open spec fn csv_field(s: Seq<char>) -> Seq<char> {
    if needs_quoting(s) {
        seq!['"'] + double_quotes(s) + seq!['"']
    } else {
        s
    }
}

/// Quotes a CSV field where needed, doubling the quotes inside it.
pub fn escape_csv(value: &str) -> (r: String)
    ensures
        r@ == csv_field(value@),
{
    let n = value.unicode_len();
    let mut wrap = false;
    let mut i: usize = 0;
    while i < n
        invariant
            n == value@.len(),
            i <= n,
            wrap == exists|k: int| 0 <= k < i && (value@[k] == ',' || value@[k] == '"' || value@[k] == '\n'),
        decreases n - i,
    {
        let c = value.get_char(i);
        if c == ',' || c == '"' || c == '\n' {
            wrap = true;
        }
        i = i + 1;
    }
    if !wrap {
        return value.to_string();
    }
    proof {
        reveal_strlit("\"");
    }
    let mut out = "\"".to_string();
    let mut body = String::new();
    let mut j: usize = 0;
    while j < n
        invariant
            n == value@.len(),
            j <= n,
            body@ == double_quotes(value@.take(j as int)),
        decreases n - j,
    {
        assert(value@.take(j + 1).drop_last() =~= value@.take(j as int));
        let c = value.get_char(j);
        if c == '"' {
            proof {
                reveal_strlit("\"\"");
            }
            assert("\"\""@ =~= seq!['"', '"']);
            body.append("\"\"");
        } else {
            let piece = value.substring_char(j, j + 1);
            assert(piece@ =~= seq![c]);
            body.append(piece);
        }
        assert(value@.take(j + 1).last() == c);
        assert(double_quotes(value@.take(j + 1)) == double_quotes(value@.take(j as int)) + if c == '"' {
            seq!['"', '"']
        } else {
            seq![c]
        });
        assert(body@ =~= double_quotes(value@.take(j + 1)));
        j = j + 1;
    }
    assert(value@.take(n as int) =~= value@);
    out.append(body.as_str());
    out.append("\"");
    out
}

/// The longest error detail kept in an audit record, in characters.
pub const MAX_ERROR_DETAIL: usize = 200;

/// The first `MAX_ERROR_DETAIL` characters of an error detail.
pub fn truncate_error(message: &str) -> (r: String)
    ensures
        r@ == message@.take(if message@.len() <= MAX_ERROR_DETAIL { message@.len() as int } else { MAX_ERROR_DETAIL as int }),
{
    let n = message.unicode_len();
    if n <= MAX_ERROR_DETAIL {
        assert(message@.take(n as int) =~= message@);
        return message.to_string();
    }
    message.substring_char(0, MAX_ERROR_DETAIL).to_string()
}

} // verus!
