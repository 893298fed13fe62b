use std::cmp::Ordering;

use vstd::prelude::*;
use vstd::string::StrSliceExecFns;

verus! {

/// A podcast feed that the user keeps in the list.
#[derive(Clone, Debug, PartialEq)]
pub struct Podcast {
    pub title: String,
    pub url: String,
}

/// What `char::to_lowercase` maps `c` to.
pub uninterp spec fn lowercase_of(c: char) -> Seq<char>;

/// Relies on `char::to_lowercase`: the lowercase mapping of `c`, one or more
/// characters.
#[verifier::external_body]
fn lowercase_chars(c: char) -> (r: Vec<char>)
    ensures
        r@ == lowercase_of(c),
{
    c.to_lowercase().collect()
}

/// `s` with each character replaced by its lowercase mapping.
pub open spec fn folded(s: Seq<char>) -> Seq<char>
    decreases s.len(),
{
    if s.len() == 0 {
        Seq::empty()
    } else {
        folded(s.drop_last()) + lowercase_of(s.last())
    }
}

/// Lexicographic order of two character sequences, characters compared by code
/// point; a proper prefix comes first.
pub open spec fn lexicographic(a: Seq<char>, b: Seq<char>) -> Ordering
    decreases a.len(),
{
    if a.len() == 0 {
        if b.len() == 0 {
            Ordering::Equal
        } else {
            Ordering::Less
        }
    } else if b.len() == 0 {
        Ordering::Greater
    } else if a[0] == b[0] {
        lexicographic(a.drop_first(), b.drop_first())
    } else if (a[0] as int) < (b[0] as int) {
        Ordering::Less
    } else {
        Ordering::Greater
    }
}

/// The order of the podcast list: by title, ignoring case.
pub open spec fn title_order(a: Seq<char>, b: Seq<char>) -> Ordering {
    lexicographic(folded(a), folded(b))
}

/// The list is in title order.
pub open spec fn sorted_by_title(podcasts: Seq<Podcast>) -> bool {
    forall|i: int, j: int|
        0 <= i < j < podcasts.len() ==> title_order(podcasts[i].title@, podcasts[j].title@)
            != Ordering::Greater
}

/// `sorted` is `original` reordered: `order[i]` is the position in `original`
/// of `sorted[i]`, no position is taken twice, and podcasts of equal title keep
/// the order they had.
pub open spec fn stable_reordering(
    original: Seq<Podcast>,
    sorted: Seq<Podcast>,
    order: Seq<int>,
) -> bool {
    &&& order.len() == sorted.len()
    &&& sorted.len() == original.len()
    &&& forall|i: int|
        0 <= i < order.len() ==> 0 <= #[trigger] order[i] < original.len() && sorted[i]
            == original[order[i]]
    &&& forall|i: int, j: int| 0 <= i < j < order.len() ==> #[trigger] order[i] != #[trigger] order[j]
    &&& forall|i: int, j: int|
        0 <= i < j < sorted.len() && title_order(#[trigger] sorted[i].title@, #[trigger] sorted[j].title@)
            == Ordering::Equal ==> order[i] < order[j]
}

/// `sorted` is `original` reordered, with podcasts of equal title in the order
/// they had.
pub open spec fn stably_reordered(original: Seq<Podcast>, sorted: Seq<Podcast>) -> bool {
    exists|order: Seq<int>| stable_reordering(original, sorted, order)
}

/// The characters of `s`, each replaced by its lowercase mapping.
fn fold_case(s: &str) -> (r: Vec<char>)
    ensures
        r@ == folded(s@),
{
    let n = s.unicode_len();
    let mut out: Vec<char> = Vec::new();
    let mut i: usize = 0;
    while i < n
        invariant
            n == s@.len(),
            i <= n,
            out@ == folded(s@.subrange(0, i as int)),
        decreases n - i,
    {
        let c = s.get_char(i);
        let mut lower = lowercase_chars(c);
        proof {
            let prefix = s@.subrange(0, i as int + 1);
            assert(prefix.drop_last() =~= s@.subrange(0, i as int));
            assert(prefix.last() == c);
        }
        out.append(&mut lower);
        i = i + 1;
    }
    proof {
        assert(s@.subrange(0, n as int) =~= s@);
    }
    out
}

/// Comparing from position `i` on gives the order of the whole when the
/// sequences agree before `i`.
proof fn lemma_lexicographic_skip(a: Seq<char>, b: Seq<char>, i: int)
    requires
        0 <= i <= a.len(),
        i <= b.len(),
        a.subrange(0, i) == b.subrange(0, i),
    ensures
        lexicographic(a, b) == lexicographic(a.skip(i), b.skip(i)),
    decreases i,
{
    if i == 0 {
        assert(a.skip(0) =~= a);
        assert(b.skip(0) =~= b);
    } else {
        assert(a[0] == a.subrange(0, i)[0]);
        assert(b[0] == b.subrange(0, i)[0]);
        assert(a.drop_first().subrange(0, i - 1) =~= a.subrange(0, i).drop_first());
        assert(b.drop_first().subrange(0, i - 1) =~= b.subrange(0, i).drop_first());
        lemma_lexicographic_skip(a.drop_first(), b.drop_first(), i - 1);
        assert(a.drop_first().skip(i - 1) =~= a.skip(i));
        assert(b.drop_first().skip(i - 1) =~= b.skip(i));
    }
}

/// The lexicographic order of two character sequences.
fn compare_chars(a: &Vec<char>, b: &Vec<char>) -> (r: Ordering)
    ensures
        r == lexicographic(a@, b@),
{
    let mut i: usize = 0;
    while i < a.len() && i < b.len() && a[i] == b[i]
        invariant
            i <= a.len(),
            i <= b.len(),
            a@.subrange(0, i as int) == b@.subrange(0, i as int),
        decreases a.len() - i,
    {
        proof {
            assert(a@.subrange(0, i as int + 1) =~= a@.subrange(0, i as int).push(a@[i as int]));
            assert(b@.subrange(0, i as int + 1) =~= b@.subrange(0, i as int).push(b@[i as int]));
        }
        i = i + 1;
    }
    proof {
        lemma_lexicographic_skip(a@, b@, i as int);
        if i < a.len() {
            assert(a@.skip(i as int)[0] == a@[i as int]);
        }
        if i < b.len() {
            assert(b@.skip(i as int)[0] == b@[i as int]);
        }
    }
    if i == a.len() {
        if i == b.len() {
            Ordering::Equal
        } else {
            Ordering::Less
        }
    } else if i == b.len() {
        Ordering::Greater
    } else if a[i] < b[i] {
        Ordering::Less
    } else {
        Ordering::Greater
    }
}

/// The order of two titles, ignoring case.
pub fn compare_titles(a: &str, b: &str) -> (r: Ordering)
    ensures
        r == title_order(a@, b@),
{
    let a = fold_case(a);
    let b = fold_case(b);
    compare_chars(&a, &b)
}

/// The order seen from the other side.
pub open spec fn converse(o: Ordering) -> Ordering {
    match o {
        Ordering::Less => Ordering::Greater,
        Ordering::Equal => Ordering::Equal,
        Ordering::Greater => Ordering::Less,
    }
}

proof fn lemma_lexicographic_converse(a: Seq<char>, b: Seq<char>)
    ensures
        lexicographic(b, a) == converse(lexicographic(a, b)),
    decreases a.len(),
{
    if a.len() > 0 && b.len() > 0 {
        if a[0] == b[0] {
            lemma_lexicographic_converse(a.drop_first(), b.drop_first());
        } else {
            assert((a[0] as int) != (b[0] as int));
        }
    }
}

proof fn lemma_lexicographic_equal(a: Seq<char>, b: Seq<char>)
    requires
        lexicographic(a, b) == Ordering::Equal,
    ensures
        a == b,
    decreases a.len(),
{
    if a.len() > 0 {
        lemma_lexicographic_equal(a.drop_first(), b.drop_first());
        assert(a =~= seq![a[0]] + a.drop_first());
        assert(b =~= seq![b[0]] + b.drop_first());
    }
}

proof fn lemma_lexicographic_less_transitive(a: Seq<char>, b: Seq<char>, c: Seq<char>)
    requires
        lexicographic(a, b) == Ordering::Less,
        lexicographic(b, c) == Ordering::Less,
    ensures
        lexicographic(a, c) == Ordering::Less,
    decreases a.len(),
{
    if a.len() > 0 && a[0] == b[0] && b[0] == c[0] {
        lemma_lexicographic_less_transitive(a.drop_first(), b.drop_first(), c.drop_first());
    }
}

/// `title_order` is a total order, as sorting by it needs: each pair is
/// ordered one way seen from the other, `Equal` means equal keys, and `Less` is
/// transitive.
pub open spec fn title_order_is_total() -> bool {
    &&& forall|a: Seq<char>, b: Seq<char>|
        #[trigger] title_order(b, a) == converse(title_order(a, b))
    &&& forall|a: Seq<char>, b: Seq<char>, c: Seq<char>|
        title_order(a, b) == Ordering::Equal ==> #[trigger] title_order(a, c)
            == #[trigger] title_order(b, c)
    &&& forall|a: Seq<char>, b: Seq<char>, c: Seq<char>|
        #[trigger] title_order(a, b) == Ordering::Less && #[trigger] title_order(b, c)
            == Ordering::Less ==> title_order(a, c) == Ordering::Less
}

/// Titles ignoring case are totally ordered.
pub proof fn lemma_title_order_is_total()
    ensures
        title_order_is_total(),
{
    assert forall|a: Seq<char>, b: Seq<char>|
        #[trigger] title_order(b, a) == converse(title_order(a, b)) by {
        lemma_lexicographic_converse(folded(a), folded(b));
    }
    assert forall|a: Seq<char>, b: Seq<char>, c: Seq<char>|
        title_order(a, b) == Ordering::Equal implies #[trigger] title_order(a, c)
            == #[trigger] title_order(b, c) by {
        lemma_lexicographic_equal(folded(a), folded(b));
    }
    assert forall|a: Seq<char>, b: Seq<char>, c: Seq<char>|
        #[trigger] title_order(a, b) == Ordering::Less && #[trigger] title_order(b, c)
            == Ordering::Less implies title_order(a, c) == Ordering::Less by {
        lemma_lexicographic_less_transitive(folded(a), folded(b), folded(c));
    }
}

/// Relies on `slice::sort_by`: a stable sort, which reorders the list into the
/// order of the comparator and keeps the order of elements it finds equal. The
/// comparator must be a total order (`compare_titles` on the titles, here).
#[verifier::external_body]
fn sort_by_title(podcasts: &mut Vec<Podcast>)
    requires
        title_order_is_total(),
    ensures
        final(podcasts)@.to_multiset() == old(podcasts)@.to_multiset(),
        sorted_by_title(final(podcasts)@),
        stably_reordered(old(podcasts)@, final(podcasts)@),
{
    podcasts.sort_by(|a, b| compare_titles(&a.title, &b.title))
}

/// Adds `podcast` to the list, sorts the list by title (podcasts of equal title
/// keep their order, the new one after the others), and returns where the first
/// podcast with its URL now stands.
pub fn add_podcast(podcasts: &mut Vec<Podcast>, podcast: Podcast) -> (index: usize)
    ensures
        final(podcasts)@.to_multiset() == old(podcasts)@.push(podcast).to_multiset(),
        sorted_by_title(final(podcasts)@),
        stably_reordered(old(podcasts)@.push(podcast), final(podcasts)@),
        index < final(podcasts)@.len(),
        final(podcasts)@[index as int].url@ == podcast.url@,
        forall|i: int| 0 <= i < index ==> final(podcasts)@[i].url@ != podcast.url@,
{
    broadcast use vstd::seq_lib::group_to_multiset_ensures;

    let url = podcast.url.clone();
    podcasts.push(podcast);
    proof {
        lemma_title_order_is_total();
    }
    sort_by_title(podcasts);
    proof {
        assert(old(podcasts)@.push(podcast).contains(podcast)) by {
            assert(old(podcasts)@.push(podcast)[old(podcasts)@.len() as int] == podcast);
        }
        let pushed = old(podcasts)@.push(podcast);
        assert(pushed.to_multiset().count(podcast) > 0);
        assert(podcasts@.to_multiset().count(podcast) > 0);
        assert(podcasts@.contains(podcast));
    }
    let ghost sorted = podcasts@;
    let mut i: usize = 0;
    while i < podcasts.len()
        invariant
            i <= podcasts@.len(),
            podcasts@ == sorted,
            sorted.to_multiset() == old(podcasts)@.push(podcast).to_multiset(),
            sorted_by_title(sorted),
            stably_reordered(old(podcasts)@.push(podcast), sorted),
            url@ == podcast.url@,
            podcasts@.contains(podcast),
            forall|j: int| 0 <= j < i ==> podcasts@[j].url@ != podcast.url@,
        decreases podcasts.len() - i,
    {
        if podcasts[i].url == url {
            return i;
        }
        i = i + 1;
    }
    proof {
        let j = choose|j: int| 0 <= j < podcasts@.len() && podcasts@[j] == podcast;
        assert(podcasts@[j].url@ == podcast.url@);
    }
    0
}

} // verus!
