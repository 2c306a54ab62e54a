//! Equality, order, sorting and joining of text, with `str`'s own semantics:
//! two texts are ordered by the bytes of their UTF-8 encodings.

use vstd::prelude::*;
use vstd::relations::*;
use vstd::seq_lib::*;
use vstd::utf8::*;

verus! {

/// Lexicographic order on byte sequences: a proper prefix comes first.
pub open spec fn bytes_le(a: Seq<u8>, b: Seq<u8>) -> bool
    decreases a.len(),
{
    if a.len() == 0 {
        true
    } else if b.len() == 0 {
        false
    } else if a[0] != b[0] {
        a[0] < b[0]
    } else {
        bytes_le(a.drop_first(), b.drop_first())
    }
}

/// The order of `str`: by the bytes of the UTF-8 encodings.
pub open spec fn utf8_le(a: Seq<char>, b: Seq<char>) -> bool {
    bytes_le(encode_utf8(a), encode_utf8(b))
}

/// `utf8_le` as a relation, the form that sorting speaks of.
pub open spec fn text_order() -> spec_fn(Seq<char>, Seq<char>) -> bool {
    |a: Seq<char>, b: Seq<char>| utf8_le(a, b)
}

/// The characters of each text, in order.
pub open spec fn texts_view(texts: Seq<&str>) -> Seq<Seq<char>> {
    texts.map_values(|t: &str| t@)
}

/// The texts joined with `,` between consecutive ones.
pub open spec fn join_with_comma(parts: Seq<Seq<char>>) -> Seq<char>
    decreases parts.len(),
{
    if parts.len() == 0 {
        Seq::empty()
    } else if parts.len() == 1 {
        parts[0]
    } else {
        join_with_comma(parts.drop_last()) + seq![','] + parts.last()
    }
}

/// How many times `c` occurs in `s`.
pub open spec fn count_char(s: Seq<char>, c: char) -> nat
    decreases s.len(),
{
    if s.len() == 0 {
        0
    } else {
        (if s.last() == c {
            1nat
        } else {
            0nat
        }) + count_char(s.drop_last(), c)
    }
}

proof fn lemma_count_concat(a: Seq<char>, b: Seq<char>, c: char)
    ensures
        count_char(a + b, c) == count_char(a, c) + count_char(b, c),
    decreases b.len(),
{
    if b.len() == 0 {
        assert(a + b =~= a);
    } else {
        assert((a + b).drop_last() =~= a + b.drop_last());
        lemma_count_concat(a, b.drop_last(), c);
    }
}

proof fn lemma_count_absent(s: Seq<char>, c: char)
    requires
        !s.contains(c),
    ensures
        count_char(s, c) == 0,
    decreases s.len(),
{
    if s.len() > 0 {
        assert(s.drop_last().contains(c) ==> s.contains(c)) by {
            if s.drop_last().contains(c) {
                let i = choose|i: int| 0 <= i < s.drop_last().len() && s.drop_last()[i] == c;
                assert(s[i] == c);
            }
        }
        assert(s[s.len() - 1] != c);
        lemma_count_absent(s.drop_last(), c);
    }
}

/// Joining texts that hold no `,` puts exactly one `,` between each two
/// consecutive texts and none elsewhere, so the joined text splits back
/// into as many parts as were joined.
pub proof fn law_join_separates_every_part(parts: Seq<Seq<char>>)
    requires
        forall|i: int| 0 <= i < parts.len() ==> !(#[trigger] parts[i]).contains(','),
    ensures
        parts.len() == 0 ==> join_with_comma(parts) == Seq::<char>::empty(),
        parts.len() > 0 ==> count_char(join_with_comma(parts), ',') + 1 == parts.len(),
    decreases parts.len(),
{
    if parts.len() == 1 {
        lemma_count_absent(parts[0], ',');
    } else if parts.len() > 1 {
        let init = parts.drop_last();
        assert forall|i: int| 0 <= i < init.len() implies !(#[trigger] init[i]).contains(',') by {
            assert(init[i] == parts[i]);
        }
        law_join_separates_every_part(init);
        lemma_count_absent(parts.last(), ',');
        lemma_count_concat(join_with_comma(init) + seq![','], parts.last(), ',');
        lemma_count_concat(join_with_comma(init), seq![','], ',');
        assert(count_char(seq![','], ',') == 1) by {
            assert(seq![','].drop_last() =~= Seq::<char>::empty());
            assert(count_char(Seq::<char>::empty(), ',') == 0);
            assert(seq![','].last() == ',');
        }
    }
}

/// The joined text starts with the first part, and what follows a `,`
/// after it is the join of the remaining parts.
pub proof fn law_join_starts_with_first_part(parts: Seq<Seq<char>>)
    requires
        parts.len() > 0,
    ensures
        parts.len() == 1 ==> join_with_comma(parts) == parts[0],
        parts.len() > 1 ==> join_with_comma(parts) == parts[0] + seq![','] + join_with_comma(
            parts.drop_first(),
        ),
    decreases parts.len(),
{
    if parts.len() > 2 {
        let init = parts.drop_last();
        law_join_starts_with_first_part(init);
        assert(init.drop_first() =~= parts.drop_first().drop_last());
        assert(parts.drop_first().last() == parts.last());
        assert(init[0] == parts[0]);
        assert(join_with_comma(parts) =~= parts[0] + seq![','] + join_with_comma(
            parts.drop_first(),
        ));
    } else if parts.len() == 2 {
        assert(parts.drop_last().len() == 1);
        assert(parts.drop_first().len() == 1);
        assert(parts.drop_last()[0] == parts[0]);
        assert(join_with_comma(parts.drop_last()) == parts[0]);
        assert(parts.drop_first()[0] == parts[1]);
        assert(join_with_comma(parts.drop_first()) == parts[1]);
        assert(parts.last() == parts[1]);
        assert(join_with_comma(parts) =~= parts[0] + seq![','] + join_with_comma(
            parts.drop_first(),
        ));
    }
}

proof fn lemma_bytes_le_reflexive(a: Seq<u8>)
    ensures
        bytes_le(a, a),
    decreases a.len(),
{
    if a.len() > 0 {
        lemma_bytes_le_reflexive(a.drop_first());
    }
}

proof fn lemma_bytes_le_antisymmetric(a: Seq<u8>, b: Seq<u8>)
    requires
        bytes_le(a, b),
        bytes_le(b, a),
    ensures
        a == b,
    decreases a.len(),
{
    if a.len() > 0 && b.len() > 0 {
        lemma_bytes_le_antisymmetric(a.drop_first(), b.drop_first());
        assert(a =~= seq![a[0]] + a.drop_first());
        assert(b =~= seq![b[0]] + b.drop_first());
    }
}

proof fn lemma_bytes_le_transitive(a: Seq<u8>, b: Seq<u8>, c: Seq<u8>)
    requires
        bytes_le(a, b),
        bytes_le(b, c),
    ensures
        bytes_le(a, c),
    decreases a.len(),
{
    if a.len() > 0 && b.len() > 0 && c.len() > 0 {
        if a[0] == b[0] && b[0] == c[0] {
            lemma_bytes_le_transitive(a.drop_first(), b.drop_first(), c.drop_first());
        }
    }
}

proof fn lemma_bytes_le_total(a: Seq<u8>, b: Seq<u8>)
    ensures
        bytes_le(a, b) || bytes_le(b, a),
    decreases a.len(),
{
    if a.len() > 0 && b.len() > 0 && a[0] == b[0] {
        lemma_bytes_le_total(a.drop_first(), b.drop_first());
    }
}

/// Texts are ordered byte by byte: at the first position where the two
/// byte sequences differ, the smaller byte comes first; a sequence comes
/// before every longer one that it begins.
pub proof fn law_bytes_order_is_lexicographic(a: Seq<u8>, b: Seq<u8>, i: int)
    requires
        0 <= i <= a.len(),
        i <= b.len(),
        a.take(i) == b.take(i),
    ensures
        i < a.len() && i < b.len() && a[i] < b[i] ==> bytes_le(a, b) && !bytes_le(b, a),
        i == a.len() ==> bytes_le(a, b),
        i == a.len() && a.len() < b.len() ==> !bytes_le(b, a),
    decreases i,
{
    if i > 0 {
        assert(a[0] == a.take(i)[0]);
        assert(b[0] == b.take(i)[0]);
        assert(a.drop_first().take(i - 1) =~= a.take(i).drop_first());
        assert(b.drop_first().take(i - 1) =~= b.take(i).drop_first());
        law_bytes_order_is_lexicographic(a.drop_first(), b.drop_first(), i - 1);
        if i < a.len() && i < b.len() {
            assert(a.drop_first()[i - 1] == a[i]);
            assert(b.drop_first()[i - 1] == b[i]);
        }
    }
}

/// Equal encodings come from equal texts.
proof fn lemma_encode_injective(a: Seq<char>, b: Seq<char>)
    requires
        encode_utf8(a) == encode_utf8(b),
    ensures
        a == b,
{
    encode_utf8_decode_utf8(a);
    encode_utf8_decode_utf8(b);
}

/// The order of texts is a total order.
pub proof fn lemma_text_order_total()
    ensures
        total_ordering(text_order()),
{
    let leq = text_order();
    assert forall|x: Seq<char>| #[trigger] leq(x, x) by {
        lemma_bytes_le_reflexive(encode_utf8(x));
    }
    assert forall|x: Seq<char>, y: Seq<char>| #[trigger] leq(x, y) && #[trigger] leq(y, x) implies x
        == y by {
        lemma_bytes_le_antisymmetric(encode_utf8(x), encode_utf8(y));
        lemma_encode_injective(x, y);
    }
    assert forall|x: Seq<char>, y: Seq<char>, z: Seq<char>| #[trigger]
        leq(x, y) && #[trigger] leq(y, z) implies leq(x, z) by {
        lemma_bytes_le_transitive(encode_utf8(x), encode_utf8(y), encode_utf8(z));
    }
    assert forall|x: Seq<char>, y: Seq<char>| #[trigger] leq(x, y) || #[trigger] leq(y, x) by {
        lemma_bytes_le_total(encode_utf8(x), encode_utf8(y));
    }
}

/// Whether two texts are equal, compared byte by byte.
pub fn text_eq(a: &str, b: &str) -> (r: bool)
    ensures
        r == (a@ == b@),
{
    let x = a.as_bytes();
    let y = b.as_bytes();
    if x.len() != y.len() {
        return false;
    }
    let mut i: usize = 0;
    while i < x.len()
        invariant
            x@ == encode_utf8(a@),
            y@ == encode_utf8(b@),
            x@.len() == y@.len(),
            i <= x@.len(),
            forall|j: int| 0 <= j < i ==> x@[j] == y@[j],
        decreases x@.len() - i,
    {
        if x[i] != y[i] {
            return false;
        }
        i = i + 1;
    }
    proof {
        assert(x@ =~= y@);
        lemma_encode_injective(a@, b@);
    }
    true
}

/// Whether `a` comes before `b`, or equals it, in the order of `str`.
pub fn text_le(a: &str, b: &str) -> (r: bool)
    ensures
        r == utf8_le(a@, b@),
{
    let x = a.as_bytes();
    let y = b.as_bytes();
    let mut i: usize = 0;
    proof {
        assert(x@.skip(0) =~= x@);
        assert(y@.skip(0) =~= y@);
    }
    while i < x.len() && i < y.len()
        invariant
            x@ == encode_utf8(a@),
            y@ == encode_utf8(b@),
            i <= x@.len(),
            i <= y@.len(),
            bytes_le(x@, y@) == bytes_le(x@.skip(i as int), y@.skip(i as int)),
        decreases x@.len() - i,
    {
        proof {
            assert(x@.skip(i as int)[0] == x@[i as int]);
            assert(y@.skip(i as int)[0] == y@[i as int]);
            assert(x@.skip(i as int).drop_first() =~= x@.skip(i + 1));
            assert(y@.skip(i as int).drop_first() =~= y@.skip(i + 1));
        }
        if x[i] != y[i] {
            return x[i] < y[i];
        }
        i = i + 1;
    }
    i == x.len()
}

/// The texts in the order of `str` (a stable insertion sort).
pub fn sorted_texts<'a>(texts: &Vec<&'a str>) -> (r: Vec<&'a str>)
    ensures
        texts_view(r@) == texts_view(texts@).sort_by(text_order()),
{
    let ghost leq = text_order();
    proof {
        lemma_text_order_total();
    }
    let mut sorted: Vec<&'a str> = Vec::new();
    let mut i: usize = 0;
    proof {
        broadcast use group_to_multiset_ensures;

        assert(texts_view(sorted@) =~= Seq::<Seq<char>>::empty());
        assert(texts_view(texts@).take(0) =~= Seq::<Seq<char>>::empty());
    }
    while i < texts.len()
        invariant
            leq == text_order(),
            total_ordering(leq),
            i <= texts@.len(),
            sorted_by(texts_view(sorted@), leq),
            texts_view(sorted@).to_multiset() == texts_view(texts@).take(i as int).to_multiset(),
        decreases texts@.len() - i,
    {
        let x = texts[i];
        let ghost before = texts_view(sorted@);
        let mut p: usize = 0;
        while p < sorted.len() && text_le(sorted[p], x)
            invariant
                leq == text_order(),
                p <= sorted@.len(),
                before == texts_view(sorted@),
                forall|j: int| 0 <= j < p ==> #[trigger] leq(before[j], x@),
            decreases sorted@.len() - p,
        {
            p = p + 1;
        }
        proof {
            if p < sorted@.len() {
                assert(!leq(before[p as int], x@));
                assert(leq(x@, before[p as int]));
            }
        }
        sorted.insert(p, x);
        proof {
            let after = texts_view(sorted@);
            assert(after =~= before.insert(p as int, x@));
            assert forall|a: int, b: int| 0 <= a < b < after.len() implies #[trigger] leq(
                after[a],
                after[b],
            ) by {
                if b < p {
                } else if a < p && b == p {
                } else if a < p && b > p {
                    assert(leq(before[a], x@));
                    assert(leq(x@, before[p as int]));
                    if p < b - 1 {
                        assert(leq(before[p as int], before[b - 1]));
                    }
                    assert(leq(x@, before[b - 1]));
                } else if a == p {
                    assert(leq(x@, before[p as int]));
                    if p < b - 1 {
                        assert(leq(before[p as int], before[b - 1]));
                    }
                } else {
                    assert(leq(before[a - 1], before[b - 1]));
                }
            }
            broadcast use group_to_multiset_ensures;

            assert(texts_view(texts@).take(i + 1) =~= texts_view(texts@).take(i as int).push(
                x@,
            ));
        }
        i = i + 1;
    }
    proof {
        let all = texts_view(texts@);
        assert(all.take(texts@.len() as int) =~= all);
        all.lemma_sort_by_ensures(leq);
        lemma_sorted_unique(texts_view(sorted@), all.sort_by(leq), leq);
    }
    sorted
}

/// The texts joined into one, with `,` between consecutive ones.
pub fn join_with_commas(texts: &Vec<&str>) -> (r: String)
    ensures
        r@ == join_with_comma(texts_view(texts@)),
{
    let mut joined = String::new();
    let mut i: usize = 0;
    proof {
        reveal_strlit(",");
    }
    while i < texts.len()
        invariant
            i <= texts@.len(),
            joined@ == join_with_comma(texts_view(texts@).take(i as int)),
            ","@ == seq![','],
        decreases texts@.len() - i,
    {
        proof {
            let v = texts_view(texts@);
            assert(v.take(i + 1).drop_last() =~= v.take(i as int));
        }
        if i > 0 {
            joined.append(",");
        }
        joined.append(texts[i]);
        proof {
            let v = texts_view(texts@);
            if i == 0 {
                assert(joined@ =~= v.take(1)[0]);
            }
        }
        i = i + 1;
    }
    proof {
        let v = texts_view(texts@);
        assert(v.take(texts@.len() as int) =~= v);
    }
    joined
}

} // verus!
