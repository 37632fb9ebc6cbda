//! Jump pads: sensors that throw the player up.

use vstd::prelude::*;
use crate::character_controller::CharacterController;
use crate::vector::Vec3;

verus! {

/// A pad, by the upward speed that it gives.
#[derive(Clone, Copy, Debug, PartialEq, Eq, Structural)]
pub struct Jumppad(pub i64);

/// Whether the player overlaps pad `i`.
pub open spec fn on_pad(pads: Seq<Jumppad>, touching: Seq<bool>, i: int) -> bool {
    0 <= i < pads.len() && i < touching.len() && touching[i]
}

/// Whether `i` is the last pad that the player overlaps.
pub open spec fn last_pad(pads: Seq<Jumppad>, touching: Seq<bool>, i: int) -> bool {
    &&& on_pad(pads, touching, i)
    &&& forall|j: int| i < j < pads.len() ==> !#[trigger] on_pad(pads, touching, j)
}

/// The player after pad `pad` threw it up.
pub open spec fn boosted(player: CharacterController, pad: Jumppad) -> CharacterController {
    CharacterController { velocity: Vec3 { y: pad.0, ..player.velocity }, jump_count: 0, ..player }
}

/// The player after every pad that it overlaps threw it up, in order.
pub open spec fn boosted_all(player: CharacterController, pads: Seq<Jumppad>, touching: Seq<bool>) -> CharacterController
    decreases pads.len(),
{
    if pads.len() == 0 {
        player
    } else if on_pad(pads, touching, pads.len() - 1) {
        boosted(boosted_all(player, pads.drop_last(), touching), pads.last())
    } else {
        boosted_all(player, pads.drop_last(), touching)
    }
}

/// What `boosted_all` comes to: the player as it was where it overlaps no
/// pad, and else as the last pad that it overlaps leaves it. Nothing but the
/// vertical speed and the jump count ever changes.
pub proof fn lemma_boosted_all(player: CharacterController, pads: Seq<Jumppad>, touching: Seq<bool>)
    ensures
        (forall|i: int| !on_pad(pads, touching, i)) ==> boosted_all(player, pads, touching) == player,
        forall|i: int|
            last_pad(pads, touching, i) ==> boosted_all(player, pads, touching) == boosted(player, pads[i]),
        boosted_all(player, pads, touching) == (CharacterController {
            velocity: Vec3 { y: boosted_all(player, pads, touching).velocity.y, ..player.velocity },
            jump_count: boosted_all(player, pads, touching).jump_count,
            ..player
        }),
    decreases pads.len(),
{
    if pads.len() > 0 {
        let front = pads.drop_last();
        let n = pads.len() - 1;
        lemma_boosted_all(player, front, touching);
        assert forall|i: int| on_pad(front, touching, i) implies on_pad(pads, touching, i) by {}
        if on_pad(pads, touching, n) {
            assert forall|i: int| last_pad(pads, touching, i) implies i == n by {
                if i < n {
                    assert(!on_pad(pads, touching, n));
                }
            }
        } else {
            assert forall|i: int| last_pad(pads, touching, i) implies last_pad(front, touching, i) by {
                assert forall|j: int| i < j < front.len() implies !on_pad(front, touching, j) by {
                    assert(!on_pad(pads, touching, j));
                }
            }
            assert forall|i: int| last_pad(front, touching, i) implies front[i] == pads[i] by {}
        }
    }
}

/// Throws the player up from every pad that it overlaps: its vertical
/// speed becomes the strength of the pad, and its jump count zero. Where it
/// overlaps several pads, the last one decides. `touching` says of each pad,
/// by its place, whether the player overlaps it.
pub fn apply_jumppad_boost(player: &mut CharacterController, pads: &Vec<Jumppad>, touching: &Vec<bool>)
    ensures
        *final(player) == boosted_all(*old(player), pads@, touching@),
        (forall|i: int| !on_pad(pads@, touching@, i)) ==> *final(player) == *old(player),
        forall|i: int| last_pad(pads@, touching@, i) ==> *final(player) == boosted(*old(player), pads@[i]),
        old(player).wf() ==> final(player).wf(),
{
    let mut i: usize = 0;
    while i < pads.len()
        invariant
            i <= pads.len(),
            *player == boosted_all(*old(player), pads@.take(i as int), touching@),
            old(player).wf() ==> player.wf(),
        decreases pads.len() - i,
    {
        proof {
            assert(pads@.take(i + 1).drop_last() =~= pads@.take(i as int));
            assert(pads@.take(i + 1).last() == pads@[i as int]);
        }
        if i < touching.len() && touching[i] {
            player.velocity.y = pads[i].0;
            player.jump_count = 0;
        }
        i += 1;
    }
    proof {
        assert(pads@.take(pads.len() as int) =~= pads@);
        lemma_boosted_all(*old(player), pads@, touching@);
    }
}

} // verus!
