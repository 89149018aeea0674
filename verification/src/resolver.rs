//! Passphrase candidates: which configured passphrases are tried, and in
//! what order.
//!
//! The candidates are what is configured, the default first and the list
//! after it, without the empty entries and without repetitions: of equal
//! entries the first stays. They are tried in that order until one opens the
//! envelope or one fails with anything but a failed decryption.

use vstd::prelude::*;
use crate::bytes::{bytes_equal, copy_bytes};
use crate::cipher::{open, open_spec};
use crate::envelope::{Envelope, EnvelopeView};
use crate::error::EnvelopeError;

verus! {

/// The byte strings that a list holds.
pub open spec fn texts(list: Seq<Vec<u8>>) -> Seq<Seq<u8>> {
    list.map_values(|entry: Vec<u8>| entry@)
}

/// The default passphrase followed by the configured list.
pub open spec fn configured_spec(default: Seq<u8>, list: Seq<Seq<u8>>) -> Seq<Seq<u8>> {
    seq![default] + list
}

/// The candidates among `configured`: its entries in order, without the
/// empty ones and without those that stand earlier already.
pub open spec fn candidates_spec(configured: Seq<Seq<u8>>) -> Seq<Seq<u8>>
    decreases configured.len(),
{
    if configured.len() == 0 {
        Seq::empty()
    } else {
        let earlier = candidates_spec(configured.drop_last());
        let entry = configured.last();
        if entry.len() == 0 || earlier.contains(entry) {
            earlier
        } else {
            earlier.push(entry)
        }
    }
}

/// Every candidate is a configured passphrase and is not empty, every
/// configured passphrase that is not empty is a candidate, and no candidate
/// stands twice.
pub proof fn lemma_candidates_are_the_configured(configured: Seq<Seq<u8>>)
    ensures
        forall|i: int|
            0 <= i < candidates_spec(configured).len() ==> (#[trigger] candidates_spec(
                configured,
            )[i]).len() > 0 && configured.contains(candidates_spec(configured)[i]),
        forall|k: int|
            0 <= k < configured.len() && (#[trigger] configured[k]).len() > 0 ==> candidates_spec(
                configured,
            ).contains(configured[k]),
        candidates_spec(configured).no_duplicates(),
    decreases configured.len(),
{
    let all = candidates_spec(configured);
    if configured.len() > 0 {
        let shorter = configured.drop_last();
        let earlier = candidates_spec(shorter);
        let entry = configured.last();
        lemma_candidates_are_the_configured(shorter);
        assert forall|i: int| 0 <= i < all.len() implies (#[trigger] all[i]).len() > 0
            && configured.contains(all[i]) by {
            if i < earlier.len() {
                assert(all[i] == earlier[i]);
                assert(shorter.contains(earlier[i]));
                let k = choose|k: int| 0 <= k < shorter.len() && shorter[k] == earlier[i];
                assert(configured[k] == earlier[i]);
            } else {
                assert(all[i] == entry);
                assert(configured[configured.len() - 1] == entry);
            }
        }
        assert forall|k: int| 0 <= k < configured.len() && (#[trigger] configured[k]).len()
            > 0 implies all.contains(configured[k]) by {
            if k < shorter.len() {
                assert(shorter[k] == configured[k]);
                assert(earlier.contains(shorter[k]));
                let i = choose|i: int| 0 <= i < earlier.len() && earlier[i] == shorter[k];
                assert(all[i] == configured[k]);
            } else {
                if earlier.contains(entry) {
                    let i = choose|i: int| 0 <= i < earlier.len() && earlier[i] == entry;
                    assert(all[i] == entry);
                } else {
                    assert(all[all.len() - 1] == entry);
                }
            }
        }
        assert(all.no_duplicates()) by {
            assert forall|i: int, j: int| 0 <= i < all.len() && 0 <= j < all.len() && i != j implies all[i]
                != all[j] by {
                if i < earlier.len() && j < earlier.len() {
                    assert(earlier[i] != earlier[j]);
                } else if i < earlier.len() {
                    assert(earlier.contains(earlier[i]));
                } else if j < earlier.len() {
                    assert(earlier.contains(earlier[j]));
                }
            }
        }
    }
}

/// The candidates keep the order in which their passphrases first stand in
/// the configuration.
pub proof fn lemma_candidates_keep_order(configured: Seq<Seq<u8>>)
    ensures
        forall|i: int, j: int|
            #![trigger candidates_spec(configured)[i], candidates_spec(configured)[j]]
            0 <= i < j < candidates_spec(configured).len() ==> configured.index_of_first(
                candidates_spec(configured)[i],
            ).unwrap() < configured.index_of_first(candidates_spec(configured)[j]).unwrap(),
    decreases configured.len(),
{
    let all = candidates_spec(configured);
    if configured.len() > 0 {
        let shorter = configured.drop_last();
        let earlier = candidates_spec(shorter);
        let entry = configured.last();
        lemma_candidates_keep_order(shorter);
        lemma_candidates_are_the_configured(shorter);
        assert forall|i: int, j: int|
            #![trigger all[i], all[j]]
            0 <= i < j < all.len() implies configured.index_of_first(all[i]).unwrap()
            < configured.index_of_first(all[j]).unwrap() by {
            lemma_first_stays(configured, earlier[i]);
            if j < earlier.len() {
                lemma_first_stays(configured, earlier[j]);
                assert(all[i] == earlier[i] && all[j] == earlier[j]);
            } else {
                assert(all[j] == entry);
                assert(!earlier.contains(entry));
                configured.index_of_first_ensures(entry);
                assert(configured[configured.len() - 1] == entry);
                let at = configured.index_of_first(entry).unwrap();
                if at < shorter.len() {
                    assert(shorter[at] == entry);
                    assert(shorter.contains(entry));
                }
                shorter.index_of_first_ensures(earlier[i]);
            }
        }
    }
}

/// Where an entry first stands does not change when another entry is put
/// behind it.
proof fn lemma_first_stays(configured: Seq<Seq<u8>>, entry: Seq<u8>)
    requires
        configured.len() > 0,
        configured.drop_last().contains(entry),
    ensures
        configured.index_of_first(entry) == configured.drop_last().index_of_first(entry),
{
    let shorter = configured.drop_last();
    shorter.index_of_first_ensures(entry);
    configured.index_of_first_ensures(entry);
    let a = shorter.index_of_first(entry).unwrap();
    assert(configured[a] == entry);
    let b = configured.index_of_first(entry).unwrap();
    if b < a {
        assert(shorter[b] == entry);
    }
}

/// Whether `list` holds `entry`.
fn holds(list: &Vec<Vec<u8>>, entry: &[u8]) -> (r: bool)
    ensures
        r == texts(list@).contains(entry@),
{
    let mut i: usize = 0;
    while i < list.len()
        invariant
            i <= list.len(),
            forall|j: int| 0 <= j < i ==> texts(list@)[j] != entry@,
        decreases list.len() - i,
    {
        if bytes_equal(list[i].as_slice(), entry) {
            assert(texts(list@)[i as int] == entry@);
            return true;
        }
        i = i + 1;
    }
    false
}

/// Builds the candidate list of a default passphrase and a configured list.
pub fn candidate_list(default: &[u8], list: &Vec<Vec<u8>>) -> (out: Vec<Vec<u8>>)
    ensures
        texts(out@) == candidates_spec(configured_spec(default@, texts(list@))),
{
    let ghost configured = configured_spec(default@, texts(list@));
    let mut out: Vec<Vec<u8>> = Vec::new();
    proof {
        assert(configured.subrange(0, 1).drop_last() =~= Seq::<Seq<u8>>::empty());
        assert(candidates_spec(Seq::<Seq<u8>>::empty()) =~= Seq::<Seq<u8>>::empty());
        assert(configured.subrange(0, 1).last() == default@);
    }
    if default.len() > 0 {
        out.push(copy_bytes(default));
    }
    assert(texts(out@) =~= candidates_spec(configured.subrange(0, 1)));
    let mut i: usize = 0;
    while i < list.len()
        invariant
            i <= list.len(),
            configured == configured_spec(default@, texts(list@)),
            texts(out@) == candidates_spec(configured.subrange(0, i + 1)),
        decreases list.len() - i,
    {
        let entry = list[i].as_slice();
        proof {
            let longer = configured.subrange(0, i + 2);
            assert(longer.drop_last() =~= configured.subrange(0, i + 1));
            assert(longer.last() == entry@);
        }
        let ghost before = texts(out@);
        if entry.len() > 0 && !holds(&out, entry) {
            out.push(copy_bytes(entry));
            assert(texts(out@) =~= before.push(entry@));
        }
        i = i + 1;
    }
    assert(configured.subrange(0, list.len() + 1) =~= configured);
    out
}

/// How trying a list of candidates ended.
#[derive(Clone, Debug, PartialEq, Eq)]
pub enum Trial {
    /// The candidate at `index` opened the envelope.
    Opened { index: usize, plaintext: Vec<u8> },
    /// The candidate at `index` failed with something that no other
    /// passphrase can mend.
    Refused { index: usize, error: EnvelopeError },
    /// Every candidate failed to decrypt.
    Exhausted,
}

/// A trial as a mathematical value.
pub enum TrialView {
    Opened { index: int, plaintext: Seq<u8> },
    Refused { index: int, error: EnvelopeError },
    Exhausted,
}

impl View for Trial {
    type V = TrialView;

    open spec fn view(&self) -> TrialView {
        match *self {
            Trial::Opened { index, plaintext } => TrialView::Opened {
                index: index as int,
                plaintext: plaintext@,
            },
            Trial::Refused { index, error } => TrialView::Refused { index: index as int, error },
            Trial::Exhausted => TrialView::Exhausted,
        }
    }
}

/// The passphrase fails to decrypt the envelope, so that another may be
/// tried.
pub open spec fn fails_to_decrypt(e: EnvelopeView, client_key: Seq<u8>, passphrase: Seq<u8>) -> bool {
    open_spec(e, client_key, passphrase) == Err::<Seq<u8>, EnvelopeError>(
        EnvelopeError::DecryptionFailed,
    )
}

/// The first candidate at or after `from` that does anything but fail to
/// decrypt; the number of candidates where there is none.
pub open spec fn first_decisive(
    e: EnvelopeView,
    client_key: Seq<u8>,
    candidates: Seq<Seq<u8>>,
    from: int,
) -> int
    decreases candidates.len() - from,
{
    if from < 0 || from >= candidates.len() {
        candidates.len() as int
    } else if !fails_to_decrypt(e, client_key, candidates[from]) {
        from
    } else {
        first_decisive(e, client_key, candidates, from + 1)
    }
}

/// How trying the candidates in order ends: with the first that opens the
/// envelope, with the first that fails otherwise than by decryption, or with
/// none left.
pub open spec fn trial_spec(e: EnvelopeView, client_key: Seq<u8>, candidates: Seq<Seq<u8>>) -> TrialView {
    let at = first_decisive(e, client_key, candidates, 0);
    if at >= candidates.len() {
        TrialView::Exhausted
    } else {
        match open_spec(e, client_key, candidates[at]) {
            Ok(plaintext) => TrialView::Opened { index: at, plaintext },
            Err(error) => TrialView::Refused { index: at, error },
        }
    }
}

/// Every candidate before the decisive one fails to decrypt, and the
/// decisive one does not.
pub proof fn lemma_first_decisive(
    e: EnvelopeView,
    client_key: Seq<u8>,
    candidates: Seq<Seq<u8>>,
    from: int,
)
    requires
        0 <= from <= candidates.len(),
    ensures
        from <= first_decisive(e, client_key, candidates, from) <= candidates.len(),
        forall|j: int|
            from <= j < first_decisive(e, client_key, candidates, from) ==> fails_to_decrypt(
                e,
                client_key,
                #[trigger] candidates[j],
            ),
        first_decisive(e, client_key, candidates, from) < candidates.len() ==> !fails_to_decrypt(
            e,
            client_key,
            candidates[first_decisive(e, client_key, candidates, from)],
        ),
    decreases candidates.len() - from,
{
    if from < candidates.len() && fails_to_decrypt(e, client_key, candidates[from]) {
        lemma_first_decisive(e, client_key, candidates, from + 1);
    }
}

/// Tries the candidates in order on the envelope.
pub fn try_candidates(envelope: &Envelope, client_key: &[u8], candidates: &Vec<Vec<u8>>) -> (r: Trial)
    ensures
        r@ == trial_spec(envelope@, client_key@, texts(candidates@)),
{
    let mut i: usize = 0;
    while i < candidates.len()
        invariant
            i <= candidates.len(),
            first_decisive(envelope@, client_key@, texts(candidates@), 0) == first_decisive(
                envelope@,
                client_key@,
                texts(candidates@),
                i as int,
            ),
        decreases candidates.len() - i,
    {
        assert(texts(candidates@)[i as int] == candidates@[i as int]@);
        match open(envelope, client_key, candidates[i].as_slice()) {
            Ok(plaintext) => {
                return Trial::Opened { index: i, plaintext };
            },
            Err(EnvelopeError::DecryptionFailed) => {},
            Err(error) => {
                return Trial::Refused { index: i, error };
            },
        }
        i = i + 1;
    }
    Trial::Exhausted
}

} // verus!
