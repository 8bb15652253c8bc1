//! Typed notification hints and their textual `type:name:value` form.

use vstd::prelude::*;
use vstd::string::StringExecFns;

use crate::text::str_eq;

verus! {

/// The value types a hint may carry.
#[derive(Clone, Copy, Debug, PartialEq, Eq, Structural)]
pub enum HintKind {
    Int,
    Double,
    Str,
    Byte,
}

/// A typed key/value annotation attached to a notification.
///
/// The value is kept in its textual form; the kind records how the
/// transport is to interpret it.
#[derive(Clone, Debug, PartialEq, Eq)]
pub struct Hint {
    pub kind: HintKind,
    pub name: String,
    pub value: String,
}

/// The mathematical model of a [`Hint`].
pub ghost struct HintModel {
    pub kind: HintKind,
    pub name: Seq<char>,
    pub value: Seq<char>,
}

impl View for Hint {
    type V = HintModel;

    open spec fn view(&self) -> HintModel {
        HintModel { kind: self.kind, name: self.name@, value: self.value@ }
    }
}

impl Hint {
    /// Neither field may hide a separator: a hint parsed from text never
    /// contains a colon in its name or value.
    pub open spec fn wf(self) -> bool {
        !self@.name.contains(':') && !self@.value.contains(':')
    }
}

/// Why a hint string was rejected.
#[derive(Clone, Copy, Debug, PartialEq, Eq, Structural)]
pub enum HintError {
    /// The string does not consist of exactly three `:`-separated segments.
    WrongSegmentCount,
    /// The first segment is not one of `int`, `double`, `string`, `byte`.
    UnknownValueType,
}

/// The word that names `kind` in the textual form.
pub open spec fn kind_word(kind: HintKind) -> Seq<char> {
    match kind {
        HintKind::Int => "int"@,
        HintKind::Double => "double"@,
        HintKind::Str => "string"@,
        HintKind::Byte => "byte"@,
    }
}

/// The kind named by the word `w`, if any.
pub open spec fn kind_of_word(w: Seq<char>) -> Option<HintKind> {
    if w == "int"@ {
        Some(HintKind::Int)
    } else if w == "double"@ {
        Some(HintKind::Double)
    } else if w == "string"@ {
        Some(HintKind::Str)
    } else if w == "byte"@ {
        Some(HintKind::Byte)
    } else {
        None
    }
}

/// `s` split on `':'`, empty segments kept: the result always has one
/// segment more than `s` has colons.
pub open spec fn split_colon(s: Seq<char>) -> Seq<Seq<char>>
    decreases s.len(),
{
    if s.len() == 0 {
        seq![Seq::<char>::empty()]
    } else if s[0] == ':' {
        seq![Seq::<char>::empty()] + split_colon(s.drop_first())
    } else {
        let rest = split_colon(s.drop_first());
        seq![seq![s[0]] + rest[0]] + rest.drop_first()
    }
}

/// The inverse of [`split_colon`]: the segments joined by `':'`.
pub open spec fn join_colon(segs: Seq<Seq<char>>) -> Seq<char>
    decreases segs.len(),
{
    if segs.len() == 0 {
        Seq::<char>::empty()
    } else if segs.len() == 1 {
        segs[0]
    } else {
        segs[0] + seq![':'] + join_colon(segs.drop_first())
    }
}

/// What parsing a hint string yields.
pub open spec fn spec_parse_hint(s: Seq<char>) -> Result<HintModel, HintError> {
    let segs = split_colon(s);
    if segs.len() != 3 {
        Err(HintError::WrongSegmentCount)
    } else {
        match kind_of_word(segs[0]) {
            Option::None => Err(HintError::UnknownValueType),
            Option::Some(k) => Ok(HintModel { kind: k, name: segs[1], value: segs[2] }),
        }
    }
}

pub proof fn lemma_split_colon_len(s: Seq<char>)
    ensures
        split_colon(s).len() >= 1,
    decreases s.len(),
{
    if s.len() > 0 {
        lemma_split_colon_len(s.drop_first());
    }
}

/// A string without colons is a single segment.
pub proof fn lemma_split_colon_free(s: Seq<char>)
    requires
        !s.contains(':'),
    ensures
        split_colon(s) =~~= seq![s],
    decreases s.len(),
{
    if s.len() == 0 {
        assert(split_colon(s) =~~= seq![s]);
    } else {
        assert(s[0] != ':');
        assert forall|j: int| 0 <= j < s.drop_first().len() implies s.drop_first()[j] != ':' by {
            assert(s.drop_first()[j] == s[j + 1]);
        }
        assert(!s.drop_first().contains(':'));
        lemma_split_colon_free(s.drop_first());
        assert(seq![s[0]] + s.drop_first() =~= s);
    }
}

/// Splitting distributes over a colon: the text before the first colon of
/// `a + [':'] + b` is `a` when `a` is colon-free.
pub proof fn lemma_split_colon_append(a: Seq<char>, b: Seq<char>)
    requires
        !a.contains(':'),
    ensures
        split_colon(a + seq![':'] + b) =~~= seq![a] + split_colon(b),
    decreases a.len(),
{
    let s = a + seq![':'] + b;
    if a.len() == 0 {
        assert(s[0] == ':');
        assert(s.drop_first() =~= b);
        assert(split_colon(s) =~~= seq![Seq::<char>::empty()] + split_colon(b));
        assert(seq![a] + split_colon(b) =~~= seq![Seq::<char>::empty()] + split_colon(b));
    } else {
        assert(s[0] == a[0]);
        assert(a.contains(a[0]) || a[0] != ':') by {
            assert(a[0] == a[0] && 0 < a.len());
        }
        assert(s[0] != ':');
        let a1 = a.drop_first();
        assert forall|j: int| 0 <= j < a1.len() implies a1[j] != ':' by {
            assert(a1[j] == a[j + 1]);
        }
        assert(!a1.contains(':'));
        assert(s.drop_first() =~= a1 + seq![':'] + b);
        lemma_split_colon_append(a1, b);
        let rest = split_colon(s.drop_first());
        lemma_split_colon_len(b);
        assert(rest =~~= seq![a1] + split_colon(b));
        assert(rest[0] == a1);
        assert(seq![s[0]] + rest[0] =~= a);
        assert(rest.drop_first() =~~= split_colon(b));
        assert(split_colon(s) =~~= seq![a] + split_colon(b));
    }
}

/// Joining undoes splitting.
pub proof fn lemma_join_split_colon(s: Seq<char>)
    ensures
        join_colon(split_colon(s)) =~= s,
    decreases s.len(),
{
    if s.len() == 0 {
    } else if s[0] == ':' {
        lemma_join_split_colon(s.drop_first());
        lemma_split_colon_len(s.drop_first());
        let segs = split_colon(s);
        assert(segs.drop_first() =~~= split_colon(s.drop_first()));
        assert(join_colon(segs) =~= seq![':'] + join_colon(split_colon(s.drop_first())));
        assert(seq![':'] + s.drop_first() =~= s);
    } else {
        lemma_join_split_colon(s.drop_first());
        lemma_split_colon_len(s.drop_first());
        let rest = split_colon(s.drop_first());
        let segs = split_colon(s);
        if rest.len() == 1 {
            assert(segs =~~= seq![seq![s[0]] + rest[0]]);
            assert(join_colon(segs) == seq![s[0]] + rest[0]);
            assert(join_colon(rest) == rest[0]);
            assert(seq![s[0]] + s.drop_first() =~= s);
        } else {
            assert(segs.len() == rest.len() >= 2);
            assert(segs[0] == seq![s[0]] + rest[0]);
            assert(segs.drop_first() =~~= rest.drop_first());
            assert(join_colon(segs) == segs[0] + seq![':'] + join_colon(segs.drop_first()));
            assert(join_colon(rest) == rest[0] + seq![':'] + join_colon(rest.drop_first()));
            assert(join_colon(segs) =~= seq![s[0]] + join_colon(rest));
            assert(seq![s[0]] + s.drop_first() =~= s);
        }
    }
}

/// A string with a colon splits into at least two segments.
pub proof fn lemma_split_colon_contains(s: Seq<char>)
    requires
        s.contains(':'),
    ensures
        split_colon(s).len() >= 2,
    decreases s.len(),
{
    let k = choose|k: int| 0 <= k < s.len() && s[k] == ':';
    if s[0] == ':' {
        lemma_split_colon_len(s.drop_first());
    } else {
        assert(k > 0);
        assert(s.drop_first()[k - 1] == ':');
        assert(s.drop_first().contains(':'));
        lemma_split_colon_contains(s.drop_first());
    }
}

/// The word that names `kind`.
pub fn kind_name(kind: HintKind) -> (r: &'static str)
    ensures
        r@ == kind_word(kind),
{
    match kind {
        HintKind::Int => "int",
        HintKind::Double => "double",
        HintKind::Str => "string",
        HintKind::Byte => "byte",
    }
}

/// Parses a `type:name:value` hint string.
///
/// Exactly three `:`-separated segments are required, and the first must
/// name one of the four value types; the name and value segments are
/// taken verbatim.
pub fn parse_hint(pattern: &str) -> (r: Result<Hint, HintError>)
    ensures
        match r {
            Ok(h) => spec_parse_hint(pattern@) == Ok::<HintModel, HintError>(h@) && h.wf(),
            Err(e) => spec_parse_hint(pattern@) == Err::<HintModel, HintError>(e),
        },
{
    let ghost s = pattern@;
    let n = pattern.unicode_len();
    let mut i: usize = 0;
    let mut count: usize = 0;
    let mut p1: usize = 0;
    let mut p2: usize = 0;
    while i < n
        invariant
            0 <= i <= n,
            n == s.len(),
            s == pattern@,
            count <= 2,
            count == 0 ==> forall|j: int| 0 <= j < i ==> #[trigger] s[j] != ':',
            count >= 1 ==> p1 < i && s[p1 as int] == ':',
            count == 1 ==> forall|j: int| 0 <= j < i && j != p1 ==> #[trigger] s[j] != ':',
            count == 2 ==> p1 < p2 < i && s[p2 as int] == ':',
            count == 2 ==> forall|j: int|
                0 <= j < i && j != p1 && j != p2 ==> #[trigger] s[j] != ':',
        decreases n - i,
    {
        let c = pattern.get_char(i);
        if c == ':' {
            if count == 0 {
                p1 = i;
                count = 1;
            } else if count == 1 {
                p2 = i;
                count = 2;
            } else {
                proof {
                    let a = s.take(p1 as int);
                    let b = s.subrange(p1 as int + 1, p2 as int);
                    let c2 = s.subrange(p2 as int + 1, n as int);
                    assert forall|j: int| 0 <= j < a.len() implies a[j] != ':' by {
                        assert(a[j] == s[j]);
                    }
                    assert(!a.contains(':'));
                    assert forall|j: int| 0 <= j < b.len() implies b[j] != ':' by {
                        assert(b[j] == s[p1 as int + 1 + j]);
                    }
                    assert(!b.contains(':'));
                    assert(c2[i - (p2 as int + 1)] == s[i as int]);
                    assert(c2.contains(':'));
                    assert(s =~= a + seq![':'] + (b + seq![':'] + c2));
                    lemma_split_colon_append(a, b + seq![':'] + c2);
                    lemma_split_colon_append(b, c2);
                    lemma_split_colon_contains(c2);
                    assert(split_colon(s).len() >= 4);
                }
                return Err(HintError::WrongSegmentCount);
            }
        }
        i = i + 1;
    }
    if count == 0 {
        proof {
            assert(!s.contains(':')) by {
                if s.contains(':') {
                    let k = choose|k: int| 0 <= k < s.len() && s[k] == ':';
                    assert(s[k] != ':');
                }
            }
            lemma_split_colon_free(s);
            assert(split_colon(s).len() == 1);
        }
        return Err(HintError::WrongSegmentCount);
    }
    if count == 1 {
        proof {
            let a = s.take(p1 as int);
            let b = s.subrange(p1 as int + 1, n as int);
            assert forall|j: int| 0 <= j < a.len() implies a[j] != ':' by {
                assert(a[j] == s[j]);
            }
            assert(!a.contains(':'));
            assert forall|j: int| 0 <= j < b.len() implies b[j] != ':' by {
                assert(b[j] == s[p1 as int + 1 + j]);
            }
            assert(!b.contains(':'));
            assert(s =~= a + seq![':'] + b);
            lemma_split_colon_append(a, b);
            lemma_split_colon_free(b);
            assert(split_colon(s).len() == 2);
        }
        return Err(HintError::WrongSegmentCount);
    }
    let ghost a = s.take(p1 as int);
    let ghost b = s.subrange(p1 as int + 1, p2 as int);
    let ghost c = s.subrange(p2 as int + 1, n as int);
    proof {
        assert forall|j: int| 0 <= j < a.len() implies a[j] != ':' by {
            assert(a[j] == s[j]);
        }
        assert(!a.contains(':'));
        assert forall|j: int| 0 <= j < b.len() implies b[j] != ':' by {
            assert(b[j] == s[p1 as int + 1 + j]);
        }
        assert(!b.contains(':'));
        assert forall|j: int| 0 <= j < c.len() implies c[j] != ':' by {
            assert(c[j] == s[p2 as int + 1 + j]);
        }
        assert(!c.contains(':'));
        assert(s =~= a + seq![':'] + (b + seq![':'] + c));
        lemma_split_colon_append(a, b + seq![':'] + c);
        lemma_split_colon_append(b, c);
        lemma_split_colon_free(c);
        assert(split_colon(s) =~~= seq![a, b, c]);
        assert(split_colon(s).len() == 3);
        assert(split_colon(s)[0] == a);
        assert(split_colon(s)[1] == b);
        assert(split_colon(s)[2] == c);
    }
    let typ = pattern.substring_char(0, p1);
    let name_part = pattern.substring_char(p1 + 1, p2);
    let value_part = pattern.substring_char(p2 + 1, n);
    let kind_opt: Option<HintKind> = if str_eq(typ, "int") {
        Some(HintKind::Int)
    } else if str_eq(typ, "double") {
        Some(HintKind::Double)
    } else if str_eq(typ, "string") {
        Some(HintKind::Str)
    } else if str_eq(typ, "byte") {
        Some(HintKind::Byte)
    } else {
        None
    };
    proof {
        assert(typ@ == a);
        assert(kind_opt == kind_of_word(a));
    }
    match kind_opt {
        Option::None => Err(HintError::UnknownValueType),
        Option::Some(kind) => Ok(
            Hint { kind, name: name_part.to_owned(), value: value_part.to_owned() },
        ),
    }
}

/// Law: every string `type:name:value` whose type names one of the four
/// value types, and whose name and value are free of colons, parses to
/// exactly that triple.
pub proof fn lemma_hint_parse_reconstructs(t: Seq<char>, n: Seq<char>, v: Seq<char>)
    requires
        kind_of_word(t) is Some,
        !n.contains(':'),
        !v.contains(':'),
    ensures
        spec_parse_hint(t + seq![':'] + n + seq![':'] + v) == Ok::<HintModel, HintError>(
            HintModel { kind: kind_of_word(t)->0, name: n, value: v },
        ),
{
    lemma_kind_words_colon_free();
    let k = kind_of_word(t)->0;
    assert(t == kind_word(k));
    assert(!t.contains(':'));
    let s = t + seq![':'] + n + seq![':'] + v;
    assert(s =~= t + seq![':'] + (n + seq![':'] + v));
    lemma_split_colon_append(t, n + seq![':'] + v);
    lemma_split_colon_append(n, v);
    lemma_split_colon_free(v);
    assert(split_colon(s) =~~= seq![t, n, v]);
    assert(split_colon(s).len() == 3);
    assert(split_colon(s)[0] == t);
    assert(split_colon(s)[1] == n);
    assert(split_colon(s)[2] == v);
}

/// None of the four type words contains a colon.
pub proof fn lemma_kind_words_colon_free()
    ensures
        forall|k: HintKind| !(#[trigger] kind_word(k)).contains(':'),
{
    reveal_strlit("int");
    reveal_strlit("double");
    reveal_strlit("string");
    reveal_strlit("byte");
    assert forall|k: HintKind| !(#[trigger] kind_word(k)).contains(':') by {
        let w = kind_word(k);
        if w.contains(':') {
            let j = choose|j: int| 0 <= j < w.len() && w[j] == ':';
            assert(w[j] != ':');
        }
    }
}

/// Law: a string with a segment count other than three fails to parse,
/// whatever its contents.
pub proof fn lemma_wrong_segment_count_fails(s: Seq<char>)
    requires
        split_colon(s).len() != 3,
    ensures
        spec_parse_hint(s) == Err::<HintModel, HintError>(HintError::WrongSegmentCount),
{
}

/// Law: a successfully parsed triple, joined back with colons, is the
/// original string.
pub proof fn lemma_hint_parse_round_trip(s: Seq<char>)
    requires
        spec_parse_hint(s) is Ok,
    ensures
        ({
            let h = spec_parse_hint(s)->Ok_0;
            kind_word(h.kind) + seq![':'] + h.name + seq![':'] + h.value =~= s
        }),
{
    lemma_join_split_colon(s);
    let segs = split_colon(s);
    assert(segs.len() == 3);
    let rest = segs.drop_first();
    assert(rest.len() == 2);
    assert(rest[0] == segs[1]);
    let rest2 = rest.drop_first();
    assert(rest2.len() == 1);
    assert(rest2[0] == segs[2]);
    assert(join_colon(rest2) == segs[2]);
    assert(join_colon(rest) == segs[1] + seq![':'] + segs[2]);
    assert(join_colon(segs) == segs[0] + seq![':'] + (segs[1] + seq![':'] + segs[2]));
    let h = spec_parse_hint(s)->Ok_0;
    assert(kind_word(h.kind) == segs[0]);
    assert(kind_word(h.kind) + seq![':'] + h.name + seq![':'] + h.value =~= join_colon(segs));
}

impl Hint {
    /// The textual `type:name:value` form of this hint.
    pub fn pattern(&self) -> (r: String)
        ensures
            r@ == kind_word(self.kind) + seq![':'] + self@.name + seq![':'] + self@.value,
    {
        proof {
            reveal_strlit(":");
            assert(":"@ =~= seq![':']);
        }
        let mut out: String = kind_name(self.kind).to_owned();
        out.append(":");
        out.append(self.name.as_str());
        out.append(":");
        out.append(self.value.as_str());
        proof {
            assert(out@ =~= kind_word(self.kind) + seq![':'] + self@.name + seq![':'] + self@.value);
        }
        out
    }
}

} // verus!
