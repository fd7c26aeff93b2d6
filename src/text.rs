use vstd::prelude::*;
use vstd::string::*;
use heck::{ToKebabCase, ToLowerCamelCase, ToSnakeCase, ToUpperCamelCase};

verus! {

/// The concatenation of all pieces, in order.
pub open spec fn concat(parts: Seq<Seq<char>>) -> Seq<char>
    decreases parts.len(),
{
    if parts.len() == 0 {
        Seq::empty()
    } else {
        concat(parts.drop_last()) + parts.last()
    }
}

/// The pieces in order with `sep` between each two neighbours.
pub open spec fn join(parts: Seq<Seq<char>>, sep: Seq<char>) -> Seq<char>
    decreases parts.len(),
{
    if parts.len() == 0 {
        Seq::empty()
    } else if parts.len() == 1 {
        parts[0]
    } else {
        join(parts.drop_last(), sep) + sep + parts.last()
    }
}

pub proof fn lemma_concat_step(parts: Seq<Seq<char>>, i: int)
    requires
        0 <= i < parts.len(),
    ensures
        concat(parts.take(i + 1)) == concat(parts.take(i)) + parts[i],
{
    assert(parts.take(i + 1).drop_last() =~= parts.take(i));
}

pub proof fn lemma_join_step(parts: Seq<Seq<char>>, sep: Seq<char>, i: int)
    requires
        0 <= i < parts.len(),
    ensures
        join(parts.take(i + 1), sep) == if i == 0 {
            parts[0]
        } else {
            join(parts.take(i), sep) + sep + parts[i]
        },
{
    assert(parts.take(i + 1).drop_last() =~= parts.take(i));
}

/// What heck's `to_lower_camel_case` makes of a string.
pub uninterp spec fn lower_camel_of(s: Seq<char>) -> Seq<char>;

/// What heck's `to_upper_camel_case` makes of a string.
pub uninterp spec fn upper_camel_of(s: Seq<char>) -> Seq<char>;

/// What heck's `to_snake_case` makes of a string.
pub uninterp spec fn snake_of(s: Seq<char>) -> Seq<char>;

/// What heck's `to_kebab_case` makes of a string.
pub uninterp spec fn kebab_of(s: Seq<char>) -> Seq<char>;

/// What `str::lines` yields for a string, each line without its terminator.
pub uninterp spec fn lines_of(s: Seq<char>) -> Seq<Seq<char>>;

/// Relies on heck's `ToLowerCamelCase::to_lower_camel_case`, a function of the text alone.
#[verifier::external_body]
pub(crate) fn lower_camel(s: &str) -> (r: String)
    ensures
        r@ == lower_camel_of(s@),
{
    s.to_lower_camel_case()
}

/// Relies on heck's `ToUpperCamelCase::to_upper_camel_case`, a function of the text alone.
#[verifier::external_body]
pub(crate) fn upper_camel(s: &str) -> (r: String)
    ensures
        r@ == upper_camel_of(s@),
{
    s.to_upper_camel_case()
}

/// Relies on heck's `ToSnakeCase::to_snake_case`, a function of the text alone.
#[verifier::external_body]
pub(crate) fn snake(s: &str) -> (r: String)
    ensures
        r@ == snake_of(s@),
{
    s.to_snake_case()
}

/// Relies on heck's `ToKebabCase::to_kebab_case`, a function of the text alone.
#[verifier::external_body]
pub(crate) fn kebab(s: &str) -> (r: String)
    ensures
        r@ == kebab_of(s@),
{
    s.to_kebab_case()
}

/// Relies on `str::lines`: the lines of the text, in order, copied out.
#[verifier::external_body]
fn text_lines(s: &str) -> (r: Vec<String>)
    ensures
        r@.len() == lines_of(s@).len(),
        forall|i: int| 0 <= i < r@.len() ==> #[trigger] r@[i]@ == lines_of(s@)[i],
{
    s.lines().map(|l| l.to_string()).collect()
}

/// The comment line for one line of documentation.
pub open spec fn doc_line(line: Seq<char>) -> Seq<char> {
    " * "@ + line + "\n"@
}

/// A documentation comment for `docs`; nothing where there are no docs.
pub open spec fn docs_text(docs: Seq<char>) -> Seq<char> {
    if docs.len() == 0 {
        Seq::empty()
    } else {
        "/**\n"@ + concat(Seq::new(lines_of(docs).len(), |i: int| doc_line(lines_of(docs)[i]))) + "*/"@
    }
}

/// Renders `docs` as a block comment with one ` * ` line per line of text.
pub fn print_docs(docs: &str) -> (r: String)
    ensures
        r@ == docs_text(docs@),
{
    if docs.is_empty() {
        return String::new();
    }
    let lines = text_lines(docs);
    let ghost parts = Seq::new(lines_of(docs@).len(), |k: int| doc_line(lines_of(docs@)[k]));
    let mut body = String::new();
    let mut i: usize = 0;
    while i < lines.len()
        invariant
            0 <= i <= lines@.len(),
            parts == Seq::new(lines_of(docs@).len(), |k: int| doc_line(lines_of(docs@)[k])),
            lines@.len() == lines_of(docs@).len(),
            forall|k: int| 0 <= k < lines@.len() ==> #[trigger] lines@[k]@ == lines_of(docs@)[k],
            body@ == concat(parts.take(i as int)),
        decreases lines@.len() - i,
    {
        body.append(" * ");
        body.append(lines[i].as_str());
        body.append("\n");
        proof {
            assert(lines@[i as int]@ == lines_of(docs@)[i as int]);
            assert(parts[i as int] == " * "@ + lines@[i as int]@ + "\n"@);
            lemma_concat_step(parts, i as int);
        }
        i = i + 1;
    }
    assert(parts.take(lines@.len() as int) =~= parts);
    let mut r = String::from_str("/**\n");
    r.append(body.as_str());
    r.append("*/");
    r
}

/// The decimal digit for `d < 10`.
pub open spec fn digit_char(d: nat) -> char {
    if d == 0 { '0' } else if d == 1 { '1' } else if d == 2 { '2' } else if d == 3 { '3' }
    else if d == 4 { '4' } else if d == 5 { '5' } else if d == 6 { '6' } else if d == 7 { '7' }
    else if d == 8 { '8' } else { '9' }
}

/// The decimal numeral of `n`, without leading zeros.
pub open spec fn decimal_text(n: nat) -> Seq<char>
    decreases n,
{
    if n < 10 {
        seq![digit_char(n)]
    } else {
        decimal_text(n / 10).push(digit_char(n % 10))
    }
}

fn digit_str(d: u64) -> (r: &'static str)
    requires
        d < 10,
    ensures
        r@ == seq![digit_char(d as nat)],
{
    proof {
        reveal_strlit("0"); reveal_strlit("1"); reveal_strlit("2"); reveal_strlit("3");
        reveal_strlit("4"); reveal_strlit("5"); reveal_strlit("6"); reveal_strlit("7");
        reveal_strlit("8"); reveal_strlit("9");
    }
    if d == 0 { "0" } else if d == 1 { "1" } else if d == 2 { "2" } else if d == 3 { "3" }
    else if d == 4 { "4" } else if d == 5 { "5" } else if d == 6 { "6" } else if d == 7 { "7" }
    else if d == 8 { "8" } else { "9" }
}

/// The decimal numeral of `n`.
pub fn decimal(n: u64) -> (r: String)
    ensures
        r@ == decimal_text(n as nat),
    decreases n,
{
    if n < 10 {
        String::from_str(digit_str(n))
    } else {
        let mut s = decimal(n / 10);
        s.append(digit_str(n % 10));
        proof {
            assert(seq![digit_char((n % 10) as nat)] =~= Seq::<char>::empty().push(digit_char((n % 10) as nat)));
        }
        s
    }
}

} // verus!
