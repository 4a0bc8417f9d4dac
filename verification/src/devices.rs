//! Deciding which input devices count as keyboards.
//!
//! The caller scans the platform's input-device directory and opens each
//! entry whose file name matches the event-device naming pattern; entries
//! that fail to open are silently skipped, since permission problems and
//! races are common there and not fatal.  For each opened device it hands
//! over the set of key codes the device claims to support, as plain values;
//! the decisions — which names to try, which devices qualify, and whether
//! the result is empty enough to be an error — are taken here.

use vstd::prelude::*;
use vstd::string::StrSliceExecFns;

use crate::errors::HotkeyError;

verus! {

/// The code of the baseline alphabetic key whose presence marks a keyboard.
pub const CODE_A: u16 = 30;

/// Whether a device's supported key codes include the baseline alphabetic
/// key — the proxy that separates keyboards from mice and other event
/// sources with unrelated code sets.
pub open spec fn supports_keyboard(codes: Seq<u16>) -> bool {
    exists|i: int| 0 <= i < codes.len() && codes[i] == CODE_A
}

/// Tests whether a device's supported key codes mark it as a keyboard.
pub fn supports_keyboard_keys(codes: &Vec<u16>) -> (r: bool)
    ensures
        r == supports_keyboard(codes@),
{
    let n = codes.len();
    let mut i: usize = 0;
    while i < n
        invariant
            i <= n,
            n == codes@.len(),
            forall|j: int| 0 <= j < i ==> codes@[j] != CODE_A,
        decreases n - i,
    {
        if codes[i] == CODE_A {
            return true;
        }
        i = i + 1;
    }
    false
}

/// Whether a file name follows the event-device naming pattern: it starts
/// with `event`.
pub open spec fn is_event_name(s: Seq<char>) -> bool {
    s.len() >= 5 && s[0] == 'e' && s[1] == 'v' && s[2] == 'e' && s[3] == 'n' && s[4] == 't'
}

/// Tests whether a directory entry's file name names an event device.
pub fn is_event_device_name(name: &str) -> (r: bool)
    ensures
        r == is_event_name(name@),
{
    let n = name.unicode_len();
    if n < 5 {
        return false;
    }
    name.get_char(0) == 'e' && name.get_char(1) == 'v' && name.get_char(2) == 'e'
        && name.get_char(3) == 'n' && name.get_char(4) == 't'
}

/// The candidate indices that qualify as keyboards, in scan order.
pub open spec fn qualifying_indices(cands: Seq<Seq<u16>>) -> Seq<usize>
    decreases cands.len(),
{
    if cands.len() == 0 {
        Seq::empty()
    } else {
        let rest = qualifying_indices(cands.drop_last());
        if supports_keyboard(cands.last()) {
            rest.push((cands.len() - 1) as usize)
        } else {
            rest
        }
    }
}

/// The qualifying indices are exactly the candidates that support the
/// baseline key, listed in strictly increasing scan order.
pub proof fn lemma_qualifying_indices_correct(cands: Seq<Seq<u16>>)
    requires
        cands.len() <= usize::MAX,
    ensures
        ({
            let q = qualifying_indices(cands);
            &&& forall|k: int|
                0 <= k < q.len() ==> #[trigger] q[k] < cands.len() && supports_keyboard(
                    cands[q[k] as int],
                )
            &&& forall|k: int| 0 <= k < q.len() - 1 ==> #[trigger] q[k] < q[k + 1]
            &&& forall|i: int|
                0 <= i < cands.len() && #[trigger] supports_keyboard(cands[i]) ==> q.contains(
                    i as usize,
                )
        }),
    decreases cands.len(),
{
    let q = qualifying_indices(cands);
    if cands.len() > 0 {
        let prefix = cands.drop_last();
        lemma_qualifying_indices_correct(prefix);
        let qp = qualifying_indices(prefix);
        assert forall|j: int| 0 <= j < prefix.len() implies prefix[j] == cands[j] by {}
        assert forall|k: int| 0 <= k < q.len() implies #[trigger] q[k] < cands.len()
            && supports_keyboard(cands[q[k] as int]) by {
            if k < qp.len() {
                assert(q[k] == qp[k]);
                assert(supports_keyboard(prefix[qp[k] as int]));
            } else {
                assert(supports_keyboard(cands.last()));
                assert(q[k] == (cands.len() - 1) as usize);
            }
        }
        assert forall|k: int| 0 <= k < q.len() - 1 implies #[trigger] q[k] < q[k + 1] by {
            if k + 1 < qp.len() {
                assert(q[k] == qp[k] && q[k + 1] == qp[k + 1]);
            } else {
                assert(q[k] == qp[k]);
                assert(qp[k] < prefix.len());
                assert(q[k + 1] == (cands.len() - 1) as usize);
            }
        }
        assert forall|i: int|
            0 <= i < cands.len() && #[trigger] supports_keyboard(cands[i]) implies q.contains(
            i as usize,
        ) by {
            if i < cands.len() - 1 {
                assert(supports_keyboard(prefix[i]));
                assert(qp.contains(i as usize));
                let k = choose|k: int| 0 <= k < qp.len() && qp[k] == i as usize;
                assert(q[k] == i as usize);
            } else {
                assert(supports_keyboard(cands.last()));
                assert(q[q.len() - 1] == i as usize);
            }
        }
    }
}

/// Selects the keyboards among the opened candidates, each given as the key
/// codes it claims to support.  Returns their indices — exactly the
/// candidates that qualify, in scan order — or the no-keyboards error when
/// none qualifies: never a silently empty success.
pub fn select_keyboards(cands: &Vec<Vec<u16>>) -> (r: Result<Vec<usize>, HotkeyError>)
    ensures
        r matches Ok(v) ==> {
            &&& v@ == qualifying_indices(cands.deep_view())
            &&& v@.len() > 0
            &&& forall|k: int|
                0 <= k < v@.len() ==> #[trigger] v@[k] < cands@.len() && supports_keyboard(
                    cands.deep_view()[v@[k] as int],
                )
            &&& forall|k: int| 0 <= k < v@.len() - 1 ==> #[trigger] v@[k] < v@[k + 1]
            &&& forall|i: int|
                0 <= i < cands@.len() && #[trigger] supports_keyboard(cands.deep_view()[i])
                    ==> v@.contains(i as usize)
        },
        r matches Err(e) ==> e == HotkeyError::NoKeyboardsFound && forall|i: int|
            0 <= i < cands@.len() ==> !#[trigger] supports_keyboard(cands.deep_view()[i]),
{
    let ghost model = cands.deep_view();
    let n = cands.len();
    proof {
        assert(model.len() == cands@.len());
        lemma_qualifying_indices_correct(model);
    }
    let mut found: Vec<usize> = Vec::new();
    let mut i: usize = 0;
    proof {
        assert(model.subrange(0, 0) =~= Seq::<Seq<u16>>::empty());
    }
    while i < n
        invariant
            i <= n,
            n == cands@.len(),
            model == cands.deep_view(),
            model.len() == n,
            found@ == qualifying_indices(model.subrange(0, i as int)),
        decreases n - i,
    {
        proof {
            assert(model.subrange(0, i + 1).drop_last() =~= model.subrange(0, i as int));
            assert(model.subrange(0, i + 1).last() == model[i as int]);
            assert(model[i as int] == cands@[i as int]@);
        }
        if supports_keyboard_keys(&cands[i]) {
            found.push(i);
        }
        i = i + 1;
    }
    proof {
        assert(model.subrange(0, n as int) =~= model);
    }
    if found.len() == 0 {
        Err(HotkeyError::NoKeyboardsFound)
    } else {
        Ok(found)
    }
}

} // verus!
