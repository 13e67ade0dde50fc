use crate::model::elevator::Elevator;
use crate::model::player::Player;
use crate::systems::player::{in_cab, player_in_cab};
use vstd::prelude::*;

verus! {

/// One elevator tick. Whether the player rides the cab is decided before the
/// cab moves; a rider is then carried by the same change in depth.
pub fn move_elevator(elev: &mut Elevator, player: &mut Player)
    requires
        old(elev).wf(),
        in_cab(*old(player), old(elev)@.depth) ==> old(player).y + (old(elev)@.advanced().depth
            - old(elev)@.depth) <= i32::MAX,
    ensures
        final(elev).wf(),
        final(elev)@ == old(elev)@.advanced(),
        in_cab(*old(player), old(elev)@.depth) ==> *final(player) == (Player {
            y: (old(player).y + (final(elev)@.depth - old(elev)@.depth)) as i32,
            ..*old(player)
        }),
        !in_cab(*old(player), old(elev)@.depth) ==> *final(player) == *old(player),
        in_cab(*old(player), old(elev)@.depth) ==> in_cab(*final(player), final(elev)@.depth),
{
    let depth = elev.depth();
    let player_in_elevator = player_in_cab(player, depth);
    let new_depth = elev.move_towards_target();
    if player_in_elevator {
        player.y = player.y + (new_depth - depth);
    }
}

} // verus!
