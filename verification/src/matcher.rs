//! Matching of requested process names against the raw text of a process
//! listing, by the rule of the platform that produced the listing.

use vstd::prelude::*;
use vstd::string::*;
use crate::platform::PlatformKind;
use crate::text::{chars_of, contains_chars, occurs_in};

verus! {

/// The text that `str::to_lowercase` returns for `text`.
pub uninterp spec fn lowercase_of(text: Seq<char>) -> Seq<char>;

/// Calls `str::to_lowercase`, which returns the lowercase equivalent of the
/// text as a new string. The contract only gives that result its name.
#[verifier::external_body]
fn to_lowercase(text: &str) -> (lower: String)
    ensures
        lower@ == lowercase_of(text@),
{
    text.to_lowercase()
}

/// `name` between two spaces.
pub open spec fn spaced(name: Seq<char>) -> Seq<char> {
    seq![' '] + name + seq![' ']
}

/// `name` behind a path separator.
pub open spec fn rooted(name: Seq<char>) -> Seq<char> {
    seq!['/'] + name
}

/// The rule for Windows listings: the name stands anywhere in the listing,
/// letter case set aside. A name that is part of a longer image name matches.
pub open spec fn windows_rule(listing: Seq<char>, name: Seq<char>) -> bool {
    occurs_in(lowercase_of(name), lowercase_of(listing))
}

/// The rule for `ps`-style listings: the name stands between two spaces, or
/// directly behind a path separator. A name at the very start of a line, or
/// one that ends a line with no separator before it, is missed; a name that
/// begins a longer token behind a separator matches.
pub open spec fn posix_rule(listing: Seq<char>, name: Seq<char>) -> bool {
    occurs_in(spaced(name), listing) || occurs_in(rooted(name), listing)
}

/// Whether `listing`, taken on `platform`, confirms that `name` is running.
pub open spec fn confirms(platform: PlatformKind, listing: Seq<char>, name: Seq<char>) -> bool {
    match platform {
        PlatformKind::Windows => windows_rule(listing, name),
        PlatformKind::MacOS | PlatformKind::Linux => posix_rule(listing, name),
        PlatformKind::Unsupported => false,
    }
}

/// [`confirms`] as a predicate on names.
pub open spec fn confirmed_by(platform: PlatformKind, listing: Seq<char>) -> spec_fn(
    Seq<char>,
) -> bool {
    |name: Seq<char>| confirms(platform, listing, name)
}

/// The names of `names` that `listing` confirms, in the order of `names`.
pub open spec fn confirmed_names(
    platform: PlatformKind,
    listing: Seq<char>,
    names: Seq<Seq<char>>,
) -> Seq<Seq<char>> {
    names.filter(confirmed_by(platform, listing))
}

/// Filtering one element more either appends that element or changes nothing.
pub proof fn lemma_filter_take_step<A>(s: Seq<A>, pred: spec_fn(A) -> bool, i: int)
    requires
        0 <= i < s.len(),
    ensures
        s.take(i + 1).filter(pred) == if pred(s[i]) {
            s.take(i).filter(pred).push(s[i])
        } else {
            s.take(i).filter(pred)
        },
{
    reveal(Seq::filter);
    assert(s.take(i + 1).drop_last() =~= s.take(i));
}

/// `selected` picks elements of `from` at the positions `positions`, which
/// grow strictly: nothing is invented, repeated or reordered.
pub open spec fn is_selection<A>(positions: Seq<int>, from: Seq<A>, selected: Seq<A>) -> bool {
    &&& positions.len() == selected.len()
    &&& forall|k: int|
        0 <= k < positions.len() ==> 0 <= #[trigger] positions[k] < from.len() && selected[k]
            == from[positions[k]]
    &&& forall|j: int, k: int|
        0 <= j < k < positions.len() ==> #[trigger] positions[j] < #[trigger] positions[k]
}

/// The positions of the elements of `s` that satisfy `pred`, in growing order.
pub open spec fn kept_positions<A>(s: Seq<A>, pred: spec_fn(A) -> bool) -> Seq<int>
    decreases s.len(),
{
    if s.len() == 0 {
        Seq::empty()
    } else if pred(s.last()) {
        kept_positions(s.drop_last(), pred).push(s.len() - 1)
    } else {
        kept_positions(s.drop_last(), pred)
    }
}

/// A filter selects from its input at the kept positions.
pub proof fn lemma_filter_is_selection<A>(s: Seq<A>, pred: spec_fn(A) -> bool)
    ensures
        is_selection(kept_positions(s, pred), s, s.filter(pred)),
    decreases s.len(),
{
    reveal(Seq::filter);
    if s.len() > 0 {
        lemma_filter_is_selection(s.drop_last(), pred);
        let before = kept_positions(s.drop_last(), pred);
        assert forall|k: int| 0 <= k < before.len() implies s.drop_last()[#[trigger] before[k]]
            == s[before[k]] by {}
    }
}

/// Order preservation: the confirmed names are selected from the requested
/// names at strictly growing positions, each of them is confirmed by the
/// listing, and every requested name that the listing confirms is among them.
pub proof fn lemma_confirmed_names_keep_order(
    platform: PlatformKind,
    listing: Seq<char>,
    names: Seq<Seq<char>>,
)
    ensures
        exists|positions: Seq<int>|
            is_selection(positions, names, confirmed_names(platform, listing, names)),
        confirmed_names(platform, listing, names).len() <= names.len(),
        forall|k: int|
            0 <= k < confirmed_names(platform, listing, names).len() ==> confirms(
                platform,
                listing,
                #[trigger] confirmed_names(platform, listing, names)[k],
            ),
        forall|i: int|
            0 <= i < names.len() && confirms(platform, listing, names[i]) ==> confirmed_names(
                platform,
                listing,
                names,
            ).contains(#[trigger] names[i]),
{
    let pred = confirmed_by(platform, listing);
    lemma_filter_is_selection(names, pred);
    assert(is_selection(
        kept_positions(names, pred),
        names,
        confirmed_names(platform, listing, names),
    ));
    names.lemma_filter_len(pred);
    assert forall|k: int| 0 <= k < names.filter(pred).len() implies confirms(
        platform,
        listing,
        #[trigger] names.filter(pred)[k],
    ) by {
        names.lemma_filter_pred(pred, k);
    }
    assert forall|i: int|
        0 <= i < names.len() && confirms(platform, listing, names[i]) implies names.filter(
        pred,
    ).contains(#[trigger] names[i]) by {
        names.lemma_filter_contains(pred, i);
    }
}

/// Of three requested names of which the listing confirms the second and
/// the third only, those two are reported, the second before the third.
pub proof fn lemma_unconfirmed_first_of_three(
    platform: PlatformKind,
    listing: Seq<char>,
    first: Seq<char>,
    second: Seq<char>,
    third: Seq<char>,
)
    requires
        !confirms(platform, listing, first),
        confirms(platform, listing, second),
        confirms(platform, listing, third),
    ensures
        confirmed_names(platform, listing, seq![first, second, third]) == seq![second, third],
{
    let pred = confirmed_by(platform, listing);
    let names = seq![first, second, third];
    assert(names.take(0).filter(pred) =~= Seq::<Seq<char>>::empty()) by {
        reveal(Seq::filter);
    }
    lemma_filter_take_step(names, pred, 0);
    lemma_filter_take_step(names, pred, 1);
    lemma_filter_take_step(names, pred, 2);
    assert(names.take(3) =~= names);
    assert(names.filter(pred) =~= seq![second, third]);
}

/// Where the listing confirms none of the requested names, none is reported.
pub proof fn lemma_nothing_confirmed(
    platform: PlatformKind,
    listing: Seq<char>,
    names: Seq<Seq<char>>,
)
    requires
        forall|i: int| 0 <= i < names.len() ==> !confirms(platform, listing, #[trigger] names[i]),
    ensures
        confirmed_names(platform, listing, names) == Seq::<Seq<char>>::empty(),
{
    let pred = confirmed_by(platform, listing);
    if names.filter(pred).len() > 0 {
        lemma_filter_is_selection(names, pred);
        let positions = kept_positions(names, pred);
        names.lemma_filter_pred(pred, 0);
        assert(names.filter(pred)[0] == names[positions[0]]);
    }
    assert(names.filter(pred) =~= Seq::<Seq<char>>::empty());
}

/// Whether the lowercased name stands in the lowercased listing.
fn windows_hit(lower_listing: &Vec<char>, name: &str) -> (b: bool)
    ensures
        b == occurs_in(lowercase_of(name@), lower_listing@),
{
    let lower_name = to_lowercase(name);
    let needle = chars_of(lower_name.as_str());
    contains_chars(lower_listing, &needle)
}

/// Whether the listing holds the name between spaces or behind a separator.
fn posix_hit(listing: &Vec<char>, name: &str) -> (b: bool)
    ensures
        b == posix_rule(listing@, name@),
{
    let plain = chars_of(name);
    let mut between: Vec<char> = Vec::new();
    between.push(' ');
    let mut behind: Vec<char> = Vec::new();
    behind.push('/');
    let mut i: usize = 0;
    while i < plain.len()
        invariant
            i <= plain.len(),
            between@ == seq![' '] + plain@.take(i as int),
            behind@ == seq!['/'] + plain@.take(i as int),
        decreases plain.len() - i,
    {
        between.push(plain[i]);
        behind.push(plain[i]);
        assert(plain@.take(i + 1) =~= plain@.take(i as int).push(plain@[i as int]));
        i += 1;
    }
    between.push(' ');
    assert(plain@.take(plain.len() as int) =~= plain@);
    assert(between@ =~= spaced(name@));
    contains_chars(listing, &between) || contains_chars(listing, &behind)
}

/// The Windows matching rule on a raw listing.
pub fn matches_windows(listing: &str, name: &str) -> (b: bool)
    ensures
        b == windows_rule(listing@, name@),
{
    let lower = to_lowercase(listing);
    let hay = chars_of(lower.as_str());
    windows_hit(&hay, name)
}

/// The matching rule for `ps`-style listings on a raw listing.
pub fn matches_posix(listing: &str, name: &str) -> (b: bool)
    ensures
        b == posix_rule(listing@, name@),
{
    let hay = chars_of(listing);
    posix_hit(&hay, name)
}

/// Selects from `names`, in their order, those that `listing` confirms.
pub fn match_names(platform: PlatformKind, listing: &str, names: &Vec<String>) -> (matched: Vec<
    String,
>)
    ensures
        matched.deep_view() == confirmed_names(platform, listing@, names.deep_view()),
{
    let hay = match platform {
        PlatformKind::Windows => chars_of(to_lowercase(listing).as_str()),
        _ => chars_of(listing),
    };
    let ghost pred = confirmed_by(platform, listing@);
    let ghost all = names.deep_view();
    let mut matched: Vec<String> = Vec::new();
    let mut i: usize = 0;
    assert(all.take(0) =~= Seq::<Seq<char>>::empty());
    assert(matched.deep_view() =~= all.take(0).filter(pred)) by {
        reveal(Seq::filter);
    }
    while i < names.len()
        invariant
            i <= names.len(),
            all == names.deep_view(),
            pred == confirmed_by(platform, listing@),
            platform == PlatformKind::Windows ==> hay@ == lowercase_of(listing@),
            platform != PlatformKind::Windows ==> hay@ == listing@,
            matched.deep_view() == all.take(i as int).filter(pred),
        decreases names.len() - i,
    {
        let hit = match platform {
            PlatformKind::Windows => windows_hit(&hay, names[i].as_str()),
            PlatformKind::MacOS | PlatformKind::Linux => posix_hit(&hay, names[i].as_str()),
            PlatformKind::Unsupported => false,
        };
        proof {
            assert(all[i as int] == names[i as int]@);
            assert(hit == pred(all[i as int]));
            lemma_filter_take_step(all, pred, i as int);
        }
        if hit {
            let ghost before = matched.deep_view();
            matched.push(names[i].clone());
            assert(matched.deep_view() =~= before.push(all[i as int]));
        }
        i += 1;
    }
    assert(all.take(names.len() as int) =~= all);
    matched
}

} // verus!
