//! Choosing a pixel format and layout that both the compositor and the Vulkan
//! device can handle.

use vstd::prelude::*;

use crate::error::{Result, WayvekError};
use crate::DRM_FORMAT_MODIFIER_INVALID;

verus! {

/// A modifier that names a tiled layout: neither linear (zero) nor the
/// INVALID sentinel.
pub open spec fn is_tiled(modifier: u64) -> bool {
    modifier != 0 && modifier != DRM_FORMAT_MODIFIER_INVALID
}

/// The first of `modifiers` that `supported` holds, looking only at tiled ones
/// if `tiled` is set.
pub open spec fn first_shared(modifiers: Seq<u64>, supported: Seq<u64>, tiled: bool) -> Option<u64>
    decreases modifiers.len(),
{
    if modifiers.len() == 0 {
        None
    } else {
        match first_shared(modifiers.drop_last(), supported, tiled) {
            Some(m) => Some(m),
            None => if supported.contains(modifiers.last()) && (tiled ==> is_tiled(
                modifiers.last(),
            )) {
                Some(modifiers.last())
            } else {
                None
            },
        }
    }
}

/// One pass over the advertised formats: `answers[i]` holds the modifiers that
/// the device was asked for and gave for `advertised[i]`. The result is the
/// first advertised format, with its first modifier, on which both sides agree.
pub open spec fn negotiation_pass(
    advertised: Seq<(u32, Vec<u64>)>,
    answers: Seq<Seq<u64>>,
    tiled: bool,
) -> Option<(u32, u64)>
    decreases answers.len(),
{
    if answers.len() == 0 {
        None
    } else {
        match negotiation_pass(advertised, answers.drop_last(), tiled) {
            Some(pair) => Some(pair),
            None => {
                let (fourcc, modifiers) = advertised[answers.len() - 1];
                match first_shared(modifiers@, answers.last(), tiled) {
                    Some(m) => Some((fourcc, m)),
                    None => None,
                }
            },
        }
    }
}

/// What a device that gives `first` in the tiled pass and `second` in the
/// fallback pass settles on.
pub open spec fn negotiated_from(
    advertised: Seq<(u32, Vec<u64>)>,
    first: Seq<Seq<u64>>,
    second: Seq<Seq<u64>>,
) -> Option<(u32, u64)> {
    match negotiation_pass(advertised, first, true) {
        Some(pair) => Some(pair),
        None => negotiation_pass(advertised, second, false),
    }
}

/// The answers of a device that supports exactly `mods(fourcc)` for each format.
pub open spec fn all_answers(
    advertised: Seq<(u32, Vec<u64>)>,
    mods: spec_fn(u32) -> Seq<u64>,
) -> Seq<Seq<u64>> {
    Seq::new(advertised.len(), |i: int| mods(advertised[i].0))
}

/// The pair that is chosen for a device that supports exactly `mods(fourcc)`
/// for each format.
pub open spec fn negotiated(
    advertised: Seq<(u32, Vec<u64>)>,
    mods: spec_fn(u32) -> Seq<u64>,
) -> Option<(u32, u64)> {
    negotiated_from(advertised, all_answers(advertised, mods), all_answers(advertised, mods))
}

/// `vulkan_mods` always answers with `mods`.
pub open spec fn answers_with<F: Fn(u32) -> Vec<u64>>(
    vulkan_mods: F,
    mods: spec_fn(u32) -> Seq<u64>,
) -> bool {
    forall|fourcc: u32, r: Vec<u64>| #[trigger]
        call_ensures(vulkan_mods, (fourcc,), r) ==> r@ == mods(fourcc)
}

/// `answers` came back from `vulkan_mods` for the formats at the front of
/// `advertised`, in order.
pub open spec fn answered<F: Fn(u32) -> Vec<u64>>(
    vulkan_mods: F,
    advertised: Seq<(u32, Vec<u64>)>,
    answers: Seq<Seq<u64>>,
) -> bool {
    &&& answers.len() <= advertised.len()
    &&& forall|i: int| 0 <= i < answers.len() ==> #[trigger] answer_of(
        vulkan_mods,
        advertised[i].0,
        answers[i],
    )
}

/// `vulkan_mods` can answer `answer` for `fourcc`.
pub open spec fn answer_of<F: Fn(u32) -> Vec<u64>>(
    vulkan_mods: F,
    fourcc: u32,
    answer: Seq<u64>,
) -> bool {
    exists|r: Vec<u64>| #[trigger] call_ensures(vulkan_mods, (fourcc,), r) && r@ == answer
}

/// The negotiation as it went: the answers of both passes and what came of them.
/// A pass that settles on nothing has asked about every advertised format.
pub open spec fn negotiation<F: Fn(u32) -> Vec<u64>>(
    vulkan_mods: F,
    advertised: Seq<(u32, Vec<u64>)>,
    first: Seq<Seq<u64>>,
    second: Seq<Seq<u64>>,
    outcome: Option<(u32, u64)>,
) -> bool {
    &&& answered(vulkan_mods, advertised, first)
    &&& answered(vulkan_mods, advertised, second)
    &&& negotiation_pass(advertised, first, true) is None ==> first.len() == advertised.len()
    &&& outcome is None ==> second.len() == advertised.len()
    &&& outcome == negotiated_from(advertised, first, second)
}

/// The pair that a negotiation settled on, if any.
pub open spec fn settled(res: Result<(u32, u64)>) -> Option<(u32, u64)> {
    match res {
        Ok(pair) => Some(pair),
        Err(_) => None,
    }
}

/// Whether `modifier` is among `modifiers`.
pub(crate) fn holds(modifiers: &Vec<u64>, modifier: u64) -> (found: bool)
    ensures
        found == modifiers@.contains(modifier),
{
    let mut i: usize = 0;
    while i < modifiers.len()
        invariant
            i <= modifiers.len(),
            forall|j: int| 0 <= j < i ==> modifiers@[j] != modifier,
        decreases modifiers.len() - i,
    {
        if modifiers[i] == modifier {
            return true;
        }
        i += 1;
    }
    false
}

/// The first of `modifiers` that `supported` holds (see [`first_shared`]).
fn pick_shared(modifiers: &Vec<u64>, supported: &Vec<u64>, tiled: bool) -> (picked: Option<u64>)
    ensures
        picked == first_shared(modifiers@, supported@, tiled),
{
    let mut i: usize = 0;
    while i < modifiers.len()
        invariant
            i <= modifiers.len(),
            first_shared(modifiers@.take(i as int), supported@, tiled) is None,
        decreases modifiers.len() - i,
    {
        let modifier: u64 = modifiers[i];
        assert(modifiers@.take(i + 1).drop_last() =~= modifiers@.take(i as int));
        if holds(supported, modifier) && (!tiled || (modifier != 0 && modifier
            != DRM_FORMAT_MODIFIER_INVALID)) {
            proof {
                lemma_first_shared_extends(modifiers@, i + 1, supported@, tiled);
            }
            return Some(modifier);
        }
        i += 1;
    }
    assert(modifiers@.take(i as int) =~= modifiers@);
    None
}

/// What is picked from a prefix stays picked.
proof fn lemma_first_shared_extends(modifiers: Seq<u64>, n: int, supported: Seq<u64>, tiled: bool)
    requires
        0 <= n <= modifiers.len(),
        first_shared(modifiers.take(n), supported, tiled) is Some,
    ensures
        first_shared(modifiers, supported, tiled) == first_shared(
            modifiers.take(n),
            supported,
            tiled,
        ),
    decreases modifiers.len(),
{
    if n == modifiers.len() {
        assert(modifiers.take(n) =~= modifiers);
    } else {
        assert(modifiers.drop_last().take(n) =~= modifiers.take(n));
        lemma_first_shared_extends(modifiers.drop_last(), n, supported, tiled);
    }
}

/// A pass that has settled stays settled whatever else is asked.
proof fn lemma_pass_extends(
    advertised: Seq<(u32, Vec<u64>)>,
    answers: Seq<Seq<u64>>,
    n: int,
    tiled: bool,
)
    requires
        0 <= n <= answers.len(),
        negotiation_pass(advertised, answers.take(n), tiled) is Some,
    ensures
        negotiation_pass(advertised, answers, tiled) == negotiation_pass(
            advertised,
            answers.take(n),
            tiled,
        ),
    decreases answers.len(),
{
    if n == answers.len() {
        assert(answers.take(n) =~= answers);
    } else {
        assert(answers.drop_last().take(n) =~= answers.take(n));
        lemma_pass_extends(advertised, answers.drop_last(), n, tiled);
    }
}

/// One pass of [`negotiate`], with the answers it was given.
fn run_pass<F: Fn(u32) -> Vec<u64>>(
    advertised: &[(u32, Vec<u64>)],
    vulkan_mods: &F,
    tiled: bool,
) -> (res: (Option<(u32, u64)>, Ghost<Seq<Seq<u64>>>))
    requires
        forall|i: int|
            0 <= i < advertised@.len() ==> call_requires(*vulkan_mods, (#[trigger] advertised@[i].0,)),
    ensures
        answered(*vulkan_mods, advertised@, res.1@),
        res.0 == negotiation_pass(advertised@, res.1@, tiled),
        res.0 is None ==> res.1@.len() == advertised@.len(),
{
    let ghost mut answers: Seq<Seq<u64>> = Seq::empty();
    let mut i: usize = 0;
    while i < advertised.len()
        invariant
            i <= advertised@.len(),
            answers.len() == i,
            answered(*vulkan_mods, advertised@, answers),
            negotiation_pass(advertised@, answers, tiled) is None,
            forall|i: int|
                0 <= i < advertised@.len() ==> call_requires(
                    *vulkan_mods,
                    (#[trigger] advertised@[i].0,),
                ),
        decreases advertised@.len() - i,
    {
        let fourcc: u32 = advertised[i].0;
        let supported = (*vulkan_mods)(fourcc);
        let ghost before = answers;
        proof {
            assert(answer_of(*vulkan_mods, fourcc, supported@));
            answers = answers.push(supported@);
            assert(answers.drop_last() =~= before);
        }
        match pick_shared(&advertised[i].1, &supported, tiled) {
            Some(modifier) => {
                return (Some((fourcc, modifier)), Ghost(answers));
            },
            None => {},
        }
        i += 1;
    }
    (None, Ghost(answers))
}

/// Find the first mutually supported (format, modifier) pair between the
/// compositor's advertised formats and the Vulkan device's capabilities,
/// preferring a non-linear (non-zero, non-INVALID) modifier.
///
/// * `advertised` — (fourcc, modifiers) pairs from Wayland dmabuf feedback.
/// * `vulkan_mods` — callback that returns the Vulkan-supported modifiers
///   for a given DRM fourcc code.
pub fn negotiate<F: Fn(u32) -> Vec<u64>>(
    advertised: &[(u32, Vec<u64>)],
    vulkan_mods: F,
) -> (res: Result<(u32, u64)>)
    requires
        forall|i: int|
            0 <= i < advertised@.len() ==> call_requires(vulkan_mods, (#[trigger] advertised@[i].0,)),
    ensures
        forall|mods: spec_fn(u32) -> Seq<u64>| #[trigger]
            answers_with(vulkan_mods, mods) ==> settled(res) == negotiated(advertised@, mods),
        exists|first: Seq<Seq<u64>>, second: Seq<Seq<u64>>| #[trigger]
            negotiation(vulkan_mods, advertised@, first, second, settled(res)),
        res matches Err(e) ==> e is NoNegotiatedFormat,
{
    // First pass: prefer a tiled modifier.
    let (tiled, Ghost(first)) = run_pass(advertised, &vulkan_mods, true);
    // Second pass: fall back to whatever both sides share.
    let (picked, Ghost(second)) = match tiled {
        Some(pair) => (Some(pair), Ghost(Seq::<Seq<u64>>::empty())),
        None => run_pass(advertised, &vulkan_mods, false),
    };
    proof {
        assert(negotiation(vulkan_mods, advertised@, first, second, picked));
        assert forall|mods: spec_fn(u32) -> Seq<u64>| #[trigger]
            answers_with(vulkan_mods, mods) implies picked == negotiated(advertised@, mods) by {
            lemma_consistent_answers(vulkan_mods, advertised@, first, mods);
            lemma_consistent_answers(vulkan_mods, advertised@, second, mods);
            let all = all_answers(advertised@, mods);
            if tiled is Some {
                lemma_pass_extends(advertised@, all, first.len() as int, true);
            } else {
                assert(all.take(first.len() as int) =~= all);
                if picked is Some {
                    lemma_pass_extends(advertised@, all, second.len() as int, false);
                } else {
                    assert(all.take(second.len() as int) =~= all);
                }
            }
        }
    }
    match picked {
        Some(pair) => Ok(pair),
        None => Err(WayvekError::NoNegotiatedFormat),
    }
}

/// The answers of a device that always answers `mods` are a prefix of all of them.
proof fn lemma_consistent_answers<F: Fn(u32) -> Vec<u64>>(
    vulkan_mods: F,
    advertised: Seq<(u32, Vec<u64>)>,
    answers: Seq<Seq<u64>>,
    mods: spec_fn(u32) -> Seq<u64>,
)
    requires
        answered(vulkan_mods, advertised, answers),
        answers_with(vulkan_mods, mods),
    ensures
        answers == all_answers(advertised, mods).take(answers.len() as int),
{
    assert forall|i: int| 0 <= i < answers.len() implies answers[i] == mods(advertised[i].0) by {
        assert(answer_of(vulkan_mods, advertised[i].0, answers[i]));
    }
    assert(answers =~= all_answers(advertised, mods).take(answers.len() as int));
}

/// The compositor offers its `j`th modifier of the `i`th format, the device
/// supports it, and it is tiled if that is asked.
pub open spec fn agreed(
    advertised: Seq<(u32, Vec<u64>)>,
    mods: spec_fn(u32) -> Seq<u64>,
    tiled: bool,
    i: int,
    j: int,
) -> bool {
    &&& 0 <= i < advertised.len()
    &&& 0 <= j < advertised[i].1@.len()
    &&& mods(advertised[i].0).contains(advertised[i].1@[j])
    &&& tiled ==> is_tiled(advertised[i].1@[j])
}

/// `agreed` holds at (`i`, `j`) and at no place before it, in advertised order.
pub open spec fn first_agreed(
    advertised: Seq<(u32, Vec<u64>)>,
    mods: spec_fn(u32) -> Seq<u64>,
    tiled: bool,
    i: int,
    j: int,
) -> bool {
    &&& agreed(advertised, mods, tiled, i, j)
    &&& forall|k: int, l: int| #[trigger]
        agreed(advertised, mods, tiled, k, l) ==> i < k || (i == k && j <= l)
}

proof fn lemma_first_shared_place(
    modifiers: Seq<u64>,
    supported: Seq<u64>,
    tiled: bool,
) -> (j: int)
    ensures
        match first_shared(modifiers, supported, tiled) {
            Some(m) => {
                &&& 0 <= j < modifiers.len()
                &&& modifiers[j] == m
                &&& supported.contains(m)
                &&& tiled ==> is_tiled(m)
                &&& forall|l: int|
                    0 <= l < j ==> !(supported.contains(modifiers[l]) && (tiled ==> is_tiled(
                        #[trigger] modifiers[l],
                    )))
            },
            None => forall|l: int|
                0 <= l < modifiers.len() ==> !(supported.contains(modifiers[l]) && (
                tiled ==> is_tiled(#[trigger] modifiers[l]))),
        },
    decreases modifiers.len(),
{
    if modifiers.len() == 0 {
        0
    } else {
        let front = modifiers.drop_last();
        let j = lemma_first_shared_place(front, supported, tiled);
        assert forall|l: int| 0 <= l < front.len() implies front[l] == #[trigger] modifiers[l] by {}
        if first_shared(front, supported, tiled) is Some {
            j
        } else {
            modifiers.len() - 1
        }
    }
}

proof fn lemma_pass_place(
    advertised: Seq<(u32, Vec<u64>)>,
    mods: spec_fn(u32) -> Seq<u64>,
    n: int,
    tiled: bool,
) -> (place: (int, int))
    requires
        0 <= n <= advertised.len(),
    ensures
        match negotiation_pass(advertised, all_answers(advertised, mods).take(n), tiled) {
            Some((fourcc, m)) => {
                &&& place.0 < n
                &&& first_agreed(advertised, mods, tiled, place.0, place.1)
                &&& fourcc == advertised[place.0].0
                &&& m == advertised[place.0].1@[place.1]
            },
            None => forall|k: int, l: int| #[trigger]
                agreed(advertised, mods, tiled, k, l) ==> n <= k,
        },
    decreases n,
{
    let answers = all_answers(advertised, mods).take(n);
    if n == 0 {
        (0, 0)
    } else {
        let place = lemma_pass_place(advertised, mods, n - 1, tiled);
        assert(answers.drop_last() =~= all_answers(advertised, mods).take(n - 1));
        if negotiation_pass(advertised, answers.drop_last(), tiled) is Some {
            place
        } else {
            let i = n - 1;
            let j = lemma_first_shared_place(
                advertised[i].1@,
                mods(advertised[i].0),
                tiled,
            );
            (i, j)
        }
    }
}

/// The negotiated pair is the first tiled one on which both sides agree, in the
/// order in which the compositor advertises; if there is no tiled one, it is the
/// first of any kind; and there is none only if they agree on nothing.
pub proof fn law_first_agreed_is_negotiated(
    advertised: Seq<(u32, Vec<u64>)>,
    mods: spec_fn(u32) -> Seq<u64>,
)
    ensures
        match negotiated(advertised, mods) {
            Some((fourcc, modifier)) => exists|i: int, j: int, tiled: bool|
                {
                    &&& #[trigger] first_agreed(advertised, mods, tiled, i, j)
                    &&& fourcc == advertised[i].0
                    &&& modifier == advertised[i].1@[j]
                    &&& !tiled ==> forall|k: int, l: int|
                        !#[trigger] agreed(advertised, mods, true, k, l)
                },
            None => forall|k: int, l: int| !#[trigger] agreed(advertised, mods, false, k, l),
        },
{
    let n = advertised.len() as int;
    let all = all_answers(advertised, mods);
    assert(all.take(n) =~= all);
    let first = lemma_pass_place(advertised, mods, n, true);
    let second = lemma_pass_place(advertised, mods, n, false);
    if negotiation_pass(advertised, all, true) is Some {
        assert(first_agreed(advertised, mods, true, first.0, first.1));
    } else if negotiation_pass(advertised, all, false) is Some {
        assert(first_agreed(advertised, mods, false, second.0, second.1));
    }
}

/// What is negotiated was advertised by the compositor and is supported by the
/// device.
pub proof fn law_negotiated_is_mutual(
    advertised: Seq<(u32, Vec<u64>)>,
    mods: spec_fn(u32) -> Seq<u64>,
)
    ensures
        negotiated(advertised, mods) matches Some((fourcc, modifier)) ==> {
            &&& mods(fourcc).contains(modifier)
            &&& exists|i: int|
                {
                    &&& 0 <= i < advertised.len()
                    &&& (#[trigger] advertised[i]).0 == fourcc
                    &&& advertised[i].1@.contains(modifier)
                }
        },
{
    law_first_agreed_is_negotiated(advertised, mods);
}

/// A tiled modifier is chosen whenever both sides share one.
pub proof fn law_tiled_is_preferred(
    advertised: Seq<(u32, Vec<u64>)>,
    mods: spec_fn(u32) -> Seq<u64>,
    i: int,
    j: int,
)
    requires
        agreed(advertised, mods, true, i, j),
    ensures
        negotiated(advertised, mods) matches Some((_, modifier)) && is_tiled(modifier),
{
    law_first_agreed_is_negotiated(advertised, mods);
    assert(agreed(advertised, mods, false, i, j));
}

/// Negotiation fails exactly if there is no pair that both sides share.
pub proof fn law_failure_means_nothing_shared(
    advertised: Seq<(u32, Vec<u64>)>,
    mods: spec_fn(u32) -> Seq<u64>,
)
    ensures
        negotiated(advertised, mods) is None <==> forall|i: int, j: int|
            !#[trigger] agreed(advertised, mods, false, i, j),
{
    law_first_agreed_is_negotiated(advertised, mods);
    if negotiated(advertised, mods) is Some {
        let (i, j, tiled) = choose|i: int, j: int, tiled: bool|
            #[trigger] first_agreed(advertised, mods, tiled, i, j);
        assert(agreed(advertised, mods, tiled, i, j));
        assert(agreed(advertised, mods, false, i, j));
    }
}

/// A modifier that is neither zero nor 0x00ff_ffff_ffff_ffff is chosen whenever
/// both sides share one, and it is the first such: wherever such a modifier stands
/// at place `j` of format `i`, the chosen pair stands there or before, is shared,
/// and has such a modifier too.
pub proof fn law_first_tiled_pair_is_chosen(
    advertised: Seq<(u32, Vec<u64>)>,
    mods: spec_fn(u32) -> Seq<u64>,
    i: int,
    j: int,
)
    requires
        0 <= i < advertised.len(),
        0 <= j < advertised[i].1@.len(),
        mods(advertised[i].0).contains(advertised[i].1@[j]),
        advertised[i].1@[j] != 0,
        advertised[i].1@[j] != 0x00ff_ffff_ffff_ffff,
    ensures
        exists|k: int, l: int|
            {
                &&& 0 <= k <= i
                &&& 0 <= l < advertised[k].1@.len()
                &&& k < i || l <= j
                &&& mods(advertised[k].0).contains(#[trigger] advertised[k].1@[l])
                &&& advertised[k].1@[l] != 0
                &&& advertised[k].1@[l] != 0x00ff_ffff_ffff_ffff
                &&& negotiated(advertised, mods) == Some((advertised[k].0, advertised[k].1@[l]))
            },
{
    let n = advertised.len() as int;
    let all = all_answers(advertised, mods);
    assert(all.take(n) =~= all);
    let place = lemma_pass_place(advertised, mods, n, true);
    assert(agreed(advertised, mods, true, i, j));
    let m = advertised[place.0].1@[place.1];
    assert(mods(advertised[place.0].0).contains(m));
}

/// If every modifier that both sides share is zero or 0x00ff_ffff_ffff_ffff, the
/// first shared one is chosen: wherever one stands, the chosen pair stands there or
/// before, and is shared.
pub proof fn law_first_shared_pair_is_the_fallback(
    advertised: Seq<(u32, Vec<u64>)>,
    mods: spec_fn(u32) -> Seq<u64>,
    i: int,
    j: int,
)
    requires
        0 <= i < advertised.len(),
        0 <= j < advertised[i].1@.len(),
        mods(advertised[i].0).contains(advertised[i].1@[j]),
        forall|k: int, l: int|
            0 <= k < advertised.len() && 0 <= l < advertised[k].1@.len() && mods(
                advertised[k].0,
            ).contains(#[trigger] advertised[k].1@[l]) ==> advertised[k].1@[l] == 0
                || advertised[k].1@[l] == 0x00ff_ffff_ffff_ffff,
    ensures
        exists|k: int, l: int|
            {
                &&& 0 <= k <= i
                &&& 0 <= l < advertised[k].1@.len()
                &&& k < i || l <= j
                &&& mods(advertised[k].0).contains(#[trigger] advertised[k].1@[l])
                &&& negotiated(advertised, mods) == Some((advertised[k].0, advertised[k].1@[l]))
            },
{
    let n = advertised.len() as int;
    let all = all_answers(advertised, mods);
    assert(all.take(n) =~= all);
    let tiled = lemma_pass_place(advertised, mods, n, true);
    if negotiation_pass(advertised, all, true) is Some {
        assert(agreed(advertised, mods, true, tiled.0, tiled.1));
        assert(mods(advertised[tiled.0].0).contains(advertised[tiled.0].1@[tiled.1]));
    }
    let place = lemma_pass_place(advertised, mods, n, false);
    assert(agreed(advertised, mods, false, i, j));
    assert(mods(advertised[place.0].0).contains(advertised[place.0].1@[place.1]));
}

/// Nothing is chosen if no advertised modifier is supported.
pub proof fn law_nothing_shared_is_refused(
    advertised: Seq<(u32, Vec<u64>)>,
    mods: spec_fn(u32) -> Seq<u64>,
)
    requires
        forall|k: int, l: int|
            0 <= k < advertised.len() && 0 <= l < advertised[k].1@.len() ==> !mods(
                advertised[k].0,
            ).contains(#[trigger] advertised[k].1@[l]),
    ensures
        negotiated(advertised, mods) is None,
{
    law_first_agreed_is_negotiated(advertised, mods);
    if negotiated(advertised, mods) is Some {
        let (i, j, tiled) = choose|i: int, j: int, tiled: bool|
            #[trigger] first_agreed(advertised, mods, tiled, i, j);
        assert(agreed(advertised, mods, tiled, i, j));
        assert(mods(advertised[i].0).contains(advertised[i].1@[j]));
    }
}

/// The pair of a result is the pair that was settled on, unchanged.
pub proof fn law_settled_is_the_result(res: Result<(u32, u64)>, fourcc: u32, modifier: u64)
    ensures
        settled(res) == Some((fourcc, modifier)) <==> (res matches Ok((f, m)) && f == fourcc && m
            == modifier),
        settled(res) is None <==> res is Err,
{
}

} // verus!
