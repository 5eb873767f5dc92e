//! Resolution of a prober's raw charset label into a safe, decodable charset.
use crate::charset::{ascii_compatible, label_encoding_name, replacement_name, Charset};
use vstd::prelude::*;
use vstd::string::*;

verus! {

/// Why a label could not be resolved to a charset.
#[derive(Debug, PartialEq, Eq)]
pub enum Unresolved {
    /// The label names a Unicode family whose byte order it leaves open.
    Ambiguous,
    /// The label names a legacy encoding that is refused on security grounds.
    Unsafe(String),
    /// The label table has no encoding for the label.
    Unsupported(String),
}

/// Two characters that are equal up to ASCII case.
pub open spec fn same_char_ignoring_ascii_case(a: char, b: char) -> bool {
    a == b || ('A' <= a <= 'Z' && b as u32 == a as u32 + 32) || ('A' <= b <= 'Z' && a as u32
        == b as u32 + 32)
}

/// Two labels that are equal up to ASCII case.
pub open spec fn same_label(a: Seq<char>, b: Seq<char>) -> bool {
    a.len() == b.len() && forall|i: int|
        0 <= i < a.len() ==> #[trigger] same_char_ignoring_ascii_case(a[i], b[i])
}

/// The label that a prober gives to pure ASCII.
pub open spec fn ascii_label() -> Seq<char> {
    "ASCII"@
}

/// The label that a prober gives to UTF-16 in either byte order.
pub open spec fn utf16_label() -> Seq<char> {
    "UTF-16"@
}

/// Labels of legacy encodings that are refused: the ISO-2022 Chinese and
/// Korean families and HZ, used in content-sniffing attacks, and the
/// replacement encoding that stands in for them.
pub open spec fn unsafe_labels() -> Seq<Seq<char>> {
    seq![
        "ISO-2022-CN"@,
        "ISO-2022-CN-EXT"@,
        "ISO-2022-KR"@,
        "csISO2022KR"@,
        "HZ-GB-2312"@,
        "replacement"@,
    ]
}

/// Whether a label is, up to ASCII case, on the list of refused labels.
pub open spec fn is_unsafe_label(label: Seq<char>) -> bool {
    exists|i: int| 0 <= i < unsafe_labels().len() && #[trigger] same_label(label, unsafe_labels()[i])
}

/// The ASCII whitespace that the label table ignores around a label: tab,
/// line feed, form feed, carriage return and space.
pub open spec fn is_label_space(c: char) -> bool {
    c == '\t' || c == '\n' || c == '\x0C' || c == '\r' || c == ' '
}

/// `s` without its leading label whitespace.
pub open spec fn trim_start(s: Seq<char>) -> Seq<char>
    decreases s.len(),
{
    if s.len() > 0 && is_label_space(s[0]) {
        trim_start(s.drop_first())
    } else {
        s
    }
}

/// `s` without its trailing label whitespace.
pub open spec fn trim_end(s: Seq<char>) -> Seq<char>
    decreases s.len(),
{
    if s.len() > 0 && is_label_space(s.last()) {
        trim_end(s.drop_last())
    } else {
        s
    }
}

/// `s` without the label whitespace around it.
pub open spec fn trimmed(s: Seq<char>) -> Seq<char> {
    trim_end(trim_start(s))
}

/// The outcome of resolving `label` with `hint` as the caller's default. The
/// checks apply to the label without the whitespace around it, as the label
/// table does.
pub open spec fn resolution(label: Seq<char>, hint: Charset, r: Result<Charset, Unresolved>) -> bool {
    let t = trimmed(label);
    if t.len() == 0 {
        r == Ok::<Charset, Unresolved>(hint)
    } else if same_label(t, ascii_label()) && ascii_compatible(hint@) {
        r == Ok::<Charset, Unresolved>(hint)
    } else if same_label(t, utf16_label()) {
        r == Err::<Charset, Unresolved>(Unresolved::Ambiguous)
    } else if is_unsafe_label(t) {
        r matches Err(Unresolved::Unsafe(s)) && s@ == label
    } else {
        match label_encoding_name(t) {
            Some(name) => r matches Ok(c) && c@ == name && name != replacement_name(),
            None => r matches Err(Unresolved::Unsupported(s)) && s@ == label,
        }
    }
}

fn is_space(c: char) -> (r: bool)
    ensures
        r == is_label_space(c),
{
    c == '\t' || c == '\n' || c == '\x0C' || c == '\r' || c == ' '
}

proof fn lemma_trim_start_step(s: Seq<char>, i: int)
    requires
        0 <= i < s.len(),
        is_label_space(s[i]),
    ensures
        trim_start(s.subrange(i, s.len() as int)) == trim_start(s.subrange(i + 1, s.len() as int)),
{
    assert(s.subrange(i, s.len() as int).drop_first() =~= s.subrange(i + 1, s.len() as int));
}

proof fn lemma_trim_end_step(s: Seq<char>, j: int)
    requires
        0 < j <= s.len(),
        is_label_space(s[j - 1]),
    ensures
        trim_end(s.subrange(0, j)) == trim_end(s.subrange(0, j - 1)),
{
    assert(s.subrange(0, j).drop_last() =~= s.subrange(0, j - 1));
}

/// `label` without the ASCII whitespace around it that the label table
/// ignores.
pub fn trim_label(label: &str) -> (r: &str)
    ensures
        r@ == trimmed(label@),
{
    let n = label.unicode_len();
    let mut i: usize = 0;
    assert(label@.subrange(0, n as int) =~= label@);
    while i < n && is_space(label.get_char(i))
        invariant
            n == label@.len(),
            i <= n,
            trim_start(label@) == trim_start(label@.subrange(i as int, n as int)),
        decreases n - i,
    {
        proof {
            lemma_trim_start_step(label@, i as int);
        }
        i += 1;
    }
    let ghost rest = label@.subrange(i as int, n as int);
    assert(trim_start(label@) == rest);
    let mut j: usize = n;
    assert(rest.subrange(0, rest.len() as int) =~= rest);
    while j > i && is_space(label.get_char(j - 1))
        invariant
            n == label@.len(),
            i <= j <= n,
            rest == label@.subrange(i as int, n as int),
            trim_end(rest) == trim_end(rest.subrange(0, j - i)),
        decreases j,
    {
        proof {
            assert(rest[j - i - 1] == label@[j - 1]);
            lemma_trim_end_step(rest, j - i);
        }
        j -= 1;
    }
    assert(rest.subrange(0, j - i) =~= label@.subrange(i as int, j as int));
    label.substring_char(i, j)
}

fn same_char_ignoring_case(a: char, b: char) -> (r: bool)
    ensures
        r == same_char_ignoring_ascii_case(a, b),
{
    a == b || ('A' <= a && a <= 'Z' && b as u32 == a as u32 + 32) || ('A' <= b && b <= 'Z' && a as u32
        == b as u32 + 32)
}

/// Whether two labels are equal up to ASCII case.
pub fn labels_match(a: &str, b: &str) -> (r: bool)
    ensures
        r == same_label(a@, b@),
{
    let n = a.unicode_len();
    let m = b.unicode_len();
    if n != m {
        return false;
    }
    let mut i: usize = 0;
    while i < n
        invariant
            n == a@.len(),
            m == b@.len(),
            n == m,
            i <= n,
            forall|j: int| 0 <= j < i ==> #[trigger] same_char_ignoring_ascii_case(a@[j], b@[j]),
        decreases n - i,
    {
        if !same_char_ignoring_case(a.get_char(i), b.get_char(i)) {
            return false;
        }
        i += 1;
    }
    true
}

/// The refused labels, in the order of `unsafe_labels`.
fn unsafe_label_list() -> (r: Vec<&'static str>)
    ensures
        r@.len() == unsafe_labels().len(),
        forall|i: int| 0 <= i < r@.len() ==> #[trigger] r@[i]@ == unsafe_labels()[i],
{
    let mut v: Vec<&'static str> = Vec::new();
    v.push("ISO-2022-CN");
    v.push("ISO-2022-CN-EXT");
    v.push("ISO-2022-KR");
    v.push("csISO2022KR");
    v.push("HZ-GB-2312");
    v.push("replacement");
    v
}

/// Whether a label is, up to ASCII case, one of the refused labels.
pub fn is_unsafe(label: &str) -> (r: bool)
    ensures
        r == is_unsafe_label(label@),
{
    let list = unsafe_label_list();
    let mut i: usize = 0;
    while i < list.len()
        invariant
            list@.len() == unsafe_labels().len(),
            forall|k: int| 0 <= k < list@.len() ==> #[trigger] list@[k]@ == unsafe_labels()[k],
            i <= list@.len(),
            forall|k: int| 0 <= k < i ==> !#[trigger] same_label(label@, unsafe_labels()[k]),
        decreases list@.len() - i,
    {
        if labels_match(label, list[i]) {
            return true;
        }
        i += 1;
    }
    false
}

/// Resolves a prober's raw label, with `hint` as the caller's default.
///
/// An empty label (undetermined) gives the hint, and so does "ASCII" when the
/// hint is ASCII-compatible. "UTF-16" is ambiguous, since the byte order is
/// unknown without a byte-order mark. A label on the refused list is unsafe.
/// Any other label is looked up in the label table, without ever falling
/// back to the replacement encoding.
pub fn resolve(label: &str, hint: &Charset) -> (r: Result<Charset, Unresolved>)
    ensures
        resolution(label@, *hint, r),
{
    let t = trim_label(label);
    if t.unicode_len() == 0 {
        Ok(*hint)
    } else if labels_match(t, "ASCII") && hint.is_ascii_compatible() {
        Ok(*hint)
    } else if labels_match(t, "UTF-16") {
        Err(Unresolved::Ambiguous)
    } else if is_unsafe(t) {
        Err(Unresolved::Unsafe(String::from_str(label)))
    } else {
        match Charset::for_label(t) {
            Some(c) => Ok(c),
            None => Err(Unresolved::Unsupported(String::from_str(label))),
        }
    }
}

/// Every label equals itself up to ASCII case.
pub proof fn lemma_same_label_reflexive(a: Seq<char>)
    ensures
        same_label(a, a),
{
    assert forall|i: int| 0 <= i < a.len() implies #[trigger] same_char_ignoring_ascii_case(
        a[i],
        a[i],
    ) by {}
}

/// An empty label resolves to the hint, whatever the hint.
pub proof fn lemma_empty_label_gives_hint(hint: Charset, r: Result<Charset, Unresolved>)
    requires
        resolution(Seq::empty(), hint, r),
    ensures
        r == Ok::<Charset, Unresolved>(hint),
{
}

/// "ASCII", in any case, resolves to the hint when the hint is
/// ASCII-compatible, and otherwise to what the label table gives for it.
pub proof fn lemma_ascii_label(label: Seq<char>, hint: Charset, r: Result<Charset, Unresolved>)
    requires
        same_label(label, "ASCII"@),
        resolution(label, hint, r),
    ensures
        ascii_compatible(hint@) ==> r == Ok::<Charset, Unresolved>(hint),
        !ascii_compatible(hint@) ==> match label_encoding_name(label) {
            Some(name) => r matches Ok(c) && c@ == name,
            None => r matches Err(Unresolved::Unsupported(s)) && s@ == label,
        },
{
    reveal_strlit("ASCII");
    reveal_strlit("UTF-16");
    reveal_strlit("ISO-2022-CN");
    reveal_strlit("ISO-2022-CN-EXT");
    reveal_strlit("ISO-2022-KR");
    reveal_strlit("csISO2022KR");
    reveal_strlit("HZ-GB-2312");
    reveal_strlit("replacement");
    let ascii = "ASCII"@;
    assert(ascii[0] == 'A' && ascii[4] == 'I');
    assert(same_char_ignoring_ascii_case(label[0], ascii[0]));
    assert(same_char_ignoring_ascii_case(label[4], ascii[4]));
    assert(trim_start(label) == label);
    assert(trimmed(label) == label);
    assert(!is_unsafe_label(label));
}

/// "ISO-2022-CN" and "ISO-2022-KR" are refused as unsafe, whatever the hint.
pub proof fn lemma_iso2022_cn_kr_unsafe(
    label: Seq<char>,
    hint: Charset,
    r: Result<Charset, Unresolved>,
)
    requires
        label == "ISO-2022-CN"@ || label == "ISO-2022-KR"@,
        resolution(label, hint, r),
    ensures
        r matches Err(Unresolved::Unsafe(s)) && s@ == label,
{
    lemma_same_label_reflexive(label);
    reveal_strlit("ASCII");
    reveal_strlit("UTF-16");
    reveal_strlit("ISO-2022-CN");
    reveal_strlit("ISO-2022-KR");
    if label == "ISO-2022-CN"@ {
        assert(same_label(label, unsafe_labels()[0]));
    } else {
        assert(same_label(label, unsafe_labels()[2]));
    }
}

/// "UTF-16" is ambiguous, whatever the hint.
pub proof fn lemma_utf16_ambiguous(hint: Charset, r: Result<Charset, Unresolved>)
    requires
        resolution("UTF-16"@, hint, r),
    ensures
        r == Err::<Charset, Unresolved>(Unresolved::Ambiguous),
{
    lemma_same_label_reflexive("UTF-16"@);
    reveal_strlit("ASCII");
    reveal_strlit("UTF-16");
}

} // verus!
