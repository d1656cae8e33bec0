use vstd::prelude::*;
use vstd::string::StrSliceExecFns;
use vstd::string::StringExecFns;

verus! {

/// Relies on String::push: appends exactly the given character at the
/// end of the string.
#[verifier::external_body]
pub(crate) fn push_char(s: &mut String, c: char)
    ensures
        final(s)@ == old(s)@.push(c),
{
    s.push(c)
}

/// A field must be quoted when it holds the delimiter, a quote or a
/// line break; every other field is written as it is.
pub open spec fn needs_quoting(f: Seq<char>) -> bool {
    f.contains(',') || f.contains('"') || f.contains('\n') || f.contains('\r')
}

/// The field with each quote doubled and every other character kept.
pub open spec fn escape_quotes(f: Seq<char>) -> Seq<char>
    decreases f.len(),
{
    if f.len() == 0 {
        Seq::empty()
    } else {
        escape_quotes(f.drop_last()) + (if f.last() == '"' {
            seq!['"', '"']
        } else {
            seq![f.last()]
        })
    }
}

/// The serialized form of one field: enclosed in quotes with embedded
/// quotes doubled when quoting is needed, the field itself otherwise.
pub open spec fn escape_field_spec(f: Seq<char>) -> Seq<char> {
    if needs_quoting(f) {
        seq!['"'] + escape_quotes(f) + seq!['"']
    } else {
        f
    }
}

/// One report row: the two serialized fields separated by the
/// delimiter and closed by a line feed.
pub open spec fn row_spec(a: Seq<char>, b: Seq<char>) -> Seq<char> {
    escape_field_spec(a) + seq![','] + escape_field_spec(b) + seq!['\n']
}

fn field_needs_quoting(f: &str) -> (r: bool)
    ensures
        r == needs_quoting(f@),
{
    let n = f.unicode_len();
    let mut i: usize = 0;
    while i < n
        invariant
            n == f@.len(),
            i <= n,
            forall|j: int|
                0 <= j < i ==> !(f@[j] == ',' || f@[j] == '"' || f@[j] == '\n' || f@[j] == '\r'),
        decreases n - i,
    {
        let c = f.get_char(i);
        if c == ',' || c == '"' || c == '\n' || c == '\r' {
            proof {
                assert(f@.contains(f@[i as int]));
            }
            return true;
        }
        i += 1;
    }
    false
}

/// Serializes one CSV field.
pub fn escape_field(f: &str) -> (r: String)
    ensures
        r@ == escape_field_spec(f@),
{
    if field_needs_quoting(f) {
        let n = f.unicode_len();
        let mut out = String::new();
        push_char(&mut out, '"');
        let mut i: usize = 0;
        while i < n
            invariant
                n == f@.len(),
                i <= n,
                out@ == seq!['"'] + escape_quotes(f@.take(i as int)),
            decreases n - i,
        {
            let c = f.get_char(i);
            if c == '"' {
                push_char(&mut out, '"');
                push_char(&mut out, '"');
            } else {
                push_char(&mut out, c);
            }
            proof {
                assert(f@.take(i + 1).drop_last() =~= f@.take(i as int));
                assert(out@ =~= seq!['"'] + escape_quotes(f@.take(i + 1)));
            }
            i += 1;
        }
        push_char(&mut out, '"');
        proof {
            assert(f@.take(n as int) =~= f@);
            assert(out@ =~= seq!['"'] + escape_quotes(f@) + seq!['"']);
        }
        out
    } else {
        f.to_owned()
    }
}

/// Serializes one two-field row.
pub fn render_row(a: &str, b: &str) -> (r: String)
    ensures
        r@ == row_spec(a@, b@),
{
    let mut out = escape_field(a);
    push_char(&mut out, ',');
    let eb = escape_field(b);
    out.append(eb.as_str());
    push_char(&mut out, '\n');
    proof {
        assert(out@ =~= row_spec(a@, b@));
    }
    out
}

} // verus!
