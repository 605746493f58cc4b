//! Friendlier reports of configuration files that do not deserialize.
//!
//! A missing key is recognised from the error's text, which reads
//! "missing field `name`", followed by " for key `section`" where the field
//! belongs to a table, and then by the position.
use toml::de::Error as DeError;
use vstd::prelude::*;

verus! {

#[verifier::external_type_specification]
#[verifier::external_body]
pub struct ExTomlError(DeError);

/// The text that toml's `Display` impl writes for a deserialization error;
/// it depends on the error's own fields alone.
pub uninterp spec fn toml_error_text(e: DeError) -> Seq<char>;

/// Relies on toml's `Display` impl for `DeError` to give the error's text.
#[verifier::external_body]
fn error_text(e: &DeError) -> (r: String)
    ensures
        r@ == toml_error_text(*e),
{
    e.to_string()
}

/// How an error that a configuration file raised is reported.
#[derive(PartialEq, Eq, Clone, Debug)]
pub enum Diagnosis {
    /// A required key is absent; `section` is the dotted path of its table,
    /// empty for the top level.
    MissingKey { field: String, section: String },
    /// Any other error, with its text.
    Unhandled { text: String },
}

/// The text that opens the error of a missing field.
pub open spec fn missing_prefix() -> Seq<char> {
    "missing field `"@
}

/// The text that opens the name of the table where the error arose.
pub open spec fn key_prefix() -> Seq<char> {
    " for key `"@
}

/// `lit` stands in `text` from index `at` on.
pub open spec fn has_at(text: Seq<char>, at: int, lit: Seq<char>) -> bool {
    0 <= at && at + lit.len() <= text.len() && text.subrange(at, at + lit.len()) == lit
}

/// `s` holds no backtick.
pub open spec fn tick_free(s: Seq<char>) -> bool {
    forall|i: int| 0 <= i < s.len() ==> s[i] != '`'
}

/// A backtick stands in `text` at index `at` or after it.
pub open spec fn closes_after(text: Seq<char>, at: int) -> bool {
    exists|j: int| at <= j < text.len() && text[j] == '`'
}

/// `q` is what stands in `text` from `at` up to the next backtick.
pub open spec fn quoted_at(text: Seq<char>, at: int, q: Seq<char>) -> bool {
    0 <= at && at + q.len() < text.len() && text.subrange(at, at + q.len()) == q && tick_free(q)
        && text[at + q.len()] == '`'
}

/// Whether an error's text reports a missing field.
pub open spec fn is_missing_field(text: Seq<char>) -> bool {
    has_at(text, 0, missing_prefix()) && closes_after(text, missing_prefix().len() as int)
}

/// What `diagnose` gives for the text `text`.
pub open spec fn diagnosis_of(text: Seq<char>, d: Diagnosis) -> bool {
    match d {
        Diagnosis::MissingKey { field, section } => {
            let after = missing_prefix().len() + field@.len() + 1int;
            &&& is_missing_field(text)
            &&& quoted_at(text, missing_prefix().len() as int, field@)
            &&& if has_at(text, after, key_prefix()) && closes_after(
                text,
                after + key_prefix().len() as int,
            ) {
                quoted_at(text, after + key_prefix().len() as int, section@)
            } else {
                section@ == Seq::<char>::empty()
            }
        },
        Diagnosis::Unhandled { text: t } => !is_missing_field(text) && t@ == text,
    }
}

/// The text that opens the report of a missing key.
pub open spec fn report_lead() -> Seq<char> {
    "You have to add the missing field `"@
}

/// The text between the key and its table in the report of a missing key.
pub open spec fn section_lead() -> Seq<char> {
    "`, in the section ["@
}

/// The report shown for a diagnosis.
pub open spec fn message_of(d: Diagnosis) -> Seq<char> {
    match d {
        Diagnosis::MissingKey { field, section } => if section@.len() == 0 {
            report_lead() + field@ + "` to the config file"@
        } else {
            report_lead() + field@ + section_lead() + section@ + "] of the config file"@
        },
        Diagnosis::Unhandled { text } => "-=( Un-handled error )=-\n"@ + text@,
    }
}

/// Whether `lit` stands in `text` from index `at` on.
fn has_at_exec(text: &str, at: usize, lit: &str) -> (r: bool)
    ensures
        r == has_at(text@, at as int, lit@),
{
    let n: usize = text.unicode_len();
    let m: usize = lit.unicode_len();
    if at > n || m > n - at {
        return false;
    }
    let mut i: usize = 0;
    while i < m
        invariant
            i <= m,
            m == lit@.len(),
            n == text@.len(),
            at + m <= n,
            forall|k: int| 0 <= k < i ==> text@[at + k] == lit@[k],
        decreases m - i,
    {
        if text.get_char(at + i) != lit.get_char(i) {
            assert(text@.subrange(at as int, at + m)[i as int] != lit@[i as int]);
            return false;
        }
        i = i + 1;
    }
    assert(text@.subrange(at as int, at + m) =~= lit@);
    true
}

/// The index of the first backtick of `text` at `from` or after, or the
/// length of `text` where none follows.
fn find_tick(text: &str, from: usize) -> (r: usize)
    requires
        from <= text@.len(),
    ensures
        from <= r <= text@.len(),
        forall|k: int| from <= k < r ==> text@[k] != '`',
        r < text@.len() ==> text@[r as int] == '`',
        closes_after(text@, from as int) == (r < text@.len()),
{
    let n: usize = text.unicode_len();
    let mut i: usize = from;
    while i < n
        invariant
            from <= i <= n,
            n == text@.len(),
            forall|k: int| from <= k < i ==> text@[k] != '`',
        decreases n - i,
    {
        if text.get_char(i) == '`' {
            return i;
        }
        i = i + 1;
    }
    i
}

/// Tells a missing field, with its table, from any other error, by the
/// error's text.
pub fn diagnose(text: &str) -> (r: Diagnosis)
    ensures
        diagnosis_of(text@, r),
{
    proof {
        reveal_strlit("missing field `");
        reveal_strlit(" for key `");
    }
    let n: usize = text.unicode_len();
    let p: usize = "missing field `".unicode_len();
    if !has_at_exec(text, 0, "missing field `") {
        return Diagnosis::Unhandled { text: text.to_string() };
    }
    let close: usize = find_tick(text, p);
    if close == n {
        return Diagnosis::Unhandled { text: text.to_string() };
    }
    let field = text.substring_char(p, close).to_string();
    let after: usize = close + 1;
    let k: usize = " for key `".unicode_len();
    let mut section = String::new();
    if has_at_exec(text, after, " for key `") {
        let start: usize = after + k;
        let end: usize = find_tick(text, start);
        if end < n {
            section = text.substring_char(start, end).to_string();
        }
    }
    Diagnosis::MissingKey { field, section }
}

impl Diagnosis {
    /// The report to show for this diagnosis.
    pub fn message(&self) -> (r: String)
        ensures
            r@ == message_of(*self),
    {
        match self {
            Diagnosis::MissingKey { field, section } => {
                let mut r = String::from_str("You have to add the missing field `");
                r.append(field.as_str());
                if section.as_str().unicode_len() == 0 {
                    r.append("` to the config file");
                } else {
                    r.append("`, in the section [");
                    r.append(section.as_str());
                    r.append("] of the config file");
                }
                r
            },
            Diagnosis::Unhandled { text } => {
                let mut r = String::from_str("-=( Un-handled error )=-\n");
                r.append(text.as_str());
                r
            },
        }
    }
}

/// Passes a deserialized value through, or diagnoses why the file did not
/// deserialize.
pub fn error_handler<T>(config: Result<T, DeError>) -> (r: Result<T, Diagnosis>)
    ensures
        config matches Ok(v) ==> r matches Ok(w) && w == v,
        config matches Err(e) ==> r matches Err(d) && diagnosis_of(toml_error_text(e), d),
{
    match config {
        Ok(v) => Ok(v),
        Err(e) => {
            let text = error_text(&e);
            Err(diagnose(text.as_str()))
        },
    }
}

/// The report of a missing key names the key, and names its table where the
/// key belongs to one.
pub proof fn lemma_report_names_key(d: Diagnosis)
    requires
        d is MissingKey,
    ensures
        has_at(message_of(d), report_lead().len() as int, d->field@),
        d->section@.len() > 0 ==> has_at(
            message_of(d),
            (report_lead().len() + d->field@.len() + section_lead().len()) as int,
            d->section@,
        ),
{
    let a = report_lead().len() as int;
    let f = d->field@;
    let s = d->section@;
    let m = message_of(d);
    assert(m.subrange(a, a + f.len()) =~= f);
    if s.len() > 0 {
        let b = a + f.len() + section_lead().len();
        assert(m.subrange(b, b + s.len()) =~= s);
    }
}

} // verus!
