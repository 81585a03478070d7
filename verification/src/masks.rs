use vstd::prelude::*;

verus! {

/// The mask bytes of alien kind A, walk frame one (12 x 8), as a specification-level value.
#[verifier::opaque]
pub open spec fn alien_one_mask_one_data() -> Seq<u8> {
    seq![
        0u8, 0, 0, 0, 0, 1, 1, 0, 0, 0, 0, 0,
        0, 0, 0, 0, 1, 1, 1, 1, 0, 0, 0, 0,
        0, 0, 0, 1, 1, 1, 1, 1, 1, 0, 0, 0,
        0, 0, 1, 1, 0, 1, 1, 0, 1, 1, 0, 0,
        0, 0, 1, 1, 1, 1, 1, 1, 1, 1, 0, 0,
        0, 0, 0, 0, 1, 0, 0, 1, 0, 0, 0, 0,
        0, 0, 0, 1, 0, 1, 1, 0, 1, 0, 0, 0,
        0, 0, 1, 0, 1, 0, 0, 1, 0, 1, 0, 0
    ]
}

/// Pixel mask of alien kind A, walk frame one (12 x 8).
pub fn alien_one_mask_one() -> (v: Vec<u8>)
    ensures
        v@.len() == 96,
        forall|i: int| 0 <= i < v@.len() ==> v@[i] <= 1,
        v@ == alien_one_mask_one_data(),
{
    let v: Vec<u8> = vec![
        0, 0, 0, 0, 0, 1, 1, 0, 0, 0, 0, 0,
        0, 0, 0, 0, 1, 1, 1, 1, 0, 0, 0, 0,
        0, 0, 0, 1, 1, 1, 1, 1, 1, 0, 0, 0,
        0, 0, 1, 1, 0, 1, 1, 0, 1, 1, 0, 0,
        0, 0, 1, 1, 1, 1, 1, 1, 1, 1, 0, 0,
        0, 0, 0, 0, 1, 0, 0, 1, 0, 0, 0, 0,
        0, 0, 0, 1, 0, 1, 1, 0, 1, 0, 0, 0,
        0, 0, 1, 0, 1, 0, 0, 1, 0, 1, 0, 0
    ];
    proof {
        reveal(alien_one_mask_one_data);
        assert(v@ =~= alien_one_mask_one_data());
    }
    v
}

/// The mask bytes of alien kind A, walk frame two (12 x 8), as a specification-level value.
#[verifier::opaque]
pub open spec fn alien_one_mask_two_data() -> Seq<u8> {
    seq![
        0u8, 0, 0, 0, 0, 1, 1, 0, 0, 0, 0, 0,
        0, 0, 0, 0, 1, 1, 1, 1, 0, 0, 0, 0,
        0, 0, 0, 1, 1, 1, 1, 1, 1, 0, 0, 0,
        0, 0, 1, 1, 0, 1, 1, 0, 1, 1, 0, 0,
        0, 0, 1, 1, 1, 1, 1, 1, 1, 1, 0, 0,
        0, 0, 0, 1, 0, 1, 1, 0, 1, 0, 0, 0,
        0, 0, 1, 0, 0, 0, 0, 0, 0, 1, 0, 0,
        0, 0, 0, 1, 0, 0, 0, 0, 1, 0, 0, 0
    ]
}

/// Pixel mask of alien kind A, walk frame two (12 x 8).
pub fn alien_one_mask_two() -> (v: Vec<u8>)
    ensures
        v@.len() == 96,
        forall|i: int| 0 <= i < v@.len() ==> v@[i] <= 1,
        v@ == alien_one_mask_two_data(),
{
    let v: Vec<u8> = vec![
        0, 0, 0, 0, 0, 1, 1, 0, 0, 0, 0, 0,
        0, 0, 0, 0, 1, 1, 1, 1, 0, 0, 0, 0,
        0, 0, 0, 1, 1, 1, 1, 1, 1, 0, 0, 0,
        0, 0, 1, 1, 0, 1, 1, 0, 1, 1, 0, 0,
        0, 0, 1, 1, 1, 1, 1, 1, 1, 1, 0, 0,
        0, 0, 0, 1, 0, 1, 1, 0, 1, 0, 0, 0,
        0, 0, 1, 0, 0, 0, 0, 0, 0, 1, 0, 0,
        0, 0, 0, 1, 0, 0, 0, 0, 1, 0, 0, 0
    ];
    proof {
        reveal(alien_one_mask_two_data);
        assert(v@ =~= alien_one_mask_two_data());
    }
    v
}

/// The mask bytes of alien kind B, walk frame one (12 x 8), as a specification-level value.
#[verifier::opaque]
pub open spec fn alien_two_mask_one_data() -> Seq<u8> {
    seq![
        0u8, 0, 1, 0, 0, 0, 0, 0, 1, 0, 0, 0,
        0, 0, 0, 1, 0, 0, 0, 1, 0, 0, 0, 0,
        0, 0, 1, 1, 1, 1, 1, 1, 1, 0, 0, 0,
        0, 1, 1, 0, 1, 1, 1, 0, 1, 1, 0, 0,
        1, 1, 1, 1, 1, 1, 1, 1, 1, 1, 1, 0,
        1, 0, 1, 1, 1, 1, 1, 1, 1, 0, 1, 0,
        1, 0, 1, 0, 0, 0, 0, 0, 1, 0, 1, 0,
        0, 0, 0, 1, 1, 0, 1, 1, 0, 0, 0, 0
    ]
}

/// Pixel mask of alien kind B, walk frame one (12 x 8).
pub fn alien_two_mask_one() -> (v: Vec<u8>)
    ensures
        v@.len() == 96,
        forall|i: int| 0 <= i < v@.len() ==> v@[i] <= 1,
        v@ == alien_two_mask_one_data(),
{
    let v: Vec<u8> = vec![
        0, 0, 1, 0, 0, 0, 0, 0, 1, 0, 0, 0,
        0, 0, 0, 1, 0, 0, 0, 1, 0, 0, 0, 0,
        0, 0, 1, 1, 1, 1, 1, 1, 1, 0, 0, 0,
        0, 1, 1, 0, 1, 1, 1, 0, 1, 1, 0, 0,
        1, 1, 1, 1, 1, 1, 1, 1, 1, 1, 1, 0,
        1, 0, 1, 1, 1, 1, 1, 1, 1, 0, 1, 0,
        1, 0, 1, 0, 0, 0, 0, 0, 1, 0, 1, 0,
        0, 0, 0, 1, 1, 0, 1, 1, 0, 0, 0, 0
    ];
    proof {
        reveal(alien_two_mask_one_data);
        assert(v@ =~= alien_two_mask_one_data());
    }
    v
}

/// The mask bytes of alien kind B, walk frame two (12 x 8), as a specification-level value.
#[verifier::opaque]
pub open spec fn alien_two_mask_two_data() -> Seq<u8> {
    seq![
        0u8, 1, 0, 1, 0, 0, 0, 0, 0, 1, 0, 1,
        0, 1, 0, 0, 1, 0, 0, 0, 1, 0, 0, 1,
        0, 1, 0, 1, 1, 1, 1, 1, 1, 1, 0, 1,
        0, 1, 1, 1, 0, 1, 1, 1, 0, 1, 1, 1,
        0, 0, 1, 1, 1, 1, 1, 1, 1, 1, 1, 0,
        0, 0, 0, 1, 1, 1, 1, 1, 1, 1, 0, 0,
        0, 0, 0, 1, 0, 0, 0, 0, 0, 1, 0, 0,
        0, 1, 1, 0, 0, 0, 0, 0, 0, 0, 1, 1
    ]
}

/// Pixel mask of alien kind B, walk frame two (12 x 8).
pub fn alien_two_mask_two() -> (v: Vec<u8>)
    ensures
        v@.len() == 96,
        forall|i: int| 0 <= i < v@.len() ==> v@[i] <= 1,
        v@ == alien_two_mask_two_data(),
{
    let v: Vec<u8> = vec![
        0, 1, 0, 1, 0, 0, 0, 0, 0, 1, 0, 1,
        0, 1, 0, 0, 1, 0, 0, 0, 1, 0, 0, 1,
        0, 1, 0, 1, 1, 1, 1, 1, 1, 1, 0, 1,
        0, 1, 1, 1, 0, 1, 1, 1, 0, 1, 1, 1,
        0, 0, 1, 1, 1, 1, 1, 1, 1, 1, 1, 0,
        0, 0, 0, 1, 1, 1, 1, 1, 1, 1, 0, 0,
        0, 0, 0, 1, 0, 0, 0, 0, 0, 1, 0, 0,
        0, 1, 1, 0, 0, 0, 0, 0, 0, 0, 1, 1
    ];
    proof {
        reveal(alien_two_mask_two_data);
        assert(v@ =~= alien_two_mask_two_data());
    }
    v
}

/// The mask bytes of alien kind C, walk frame one (12 x 8), as a specification-level value.
#[verifier::opaque]
pub open spec fn alien_three_mask_one_data() -> Seq<u8> {
    seq![
        0u8, 0, 0, 0, 1, 1, 1, 1, 0, 0, 0, 0,
        0, 1, 1, 1, 1, 1, 1, 1, 1, 1, 1, 0,
        1, 1, 1, 1, 1, 1, 1, 1, 1, 1, 1, 1,
        1, 1, 1, 0, 0, 1, 1, 0, 0, 1, 1, 1,
        1, 1, 1, 1, 1, 1, 1, 1, 1, 1, 1, 1,
        0, 0, 0, 1, 1, 0, 0, 1, 1, 0, 0, 0,
        0, 0, 1, 1, 0, 1, 1, 0, 1, 1, 0, 0,
        1, 1, 0, 0, 0, 0, 0, 0, 0, 0, 1, 1
    ]
}

/// Pixel mask of alien kind C, walk frame one (12 x 8).
pub fn alien_three_mask_one() -> (v: Vec<u8>)
    ensures
        v@.len() == 96,
        forall|i: int| 0 <= i < v@.len() ==> v@[i] <= 1,
        v@ == alien_three_mask_one_data(),
{
    let v: Vec<u8> = vec![
        0, 0, 0, 0, 1, 1, 1, 1, 0, 0, 0, 0,
        0, 1, 1, 1, 1, 1, 1, 1, 1, 1, 1, 0,
        1, 1, 1, 1, 1, 1, 1, 1, 1, 1, 1, 1,
        1, 1, 1, 0, 0, 1, 1, 0, 0, 1, 1, 1,
        1, 1, 1, 1, 1, 1, 1, 1, 1, 1, 1, 1,
        0, 0, 0, 1, 1, 0, 0, 1, 1, 0, 0, 0,
        0, 0, 1, 1, 0, 1, 1, 0, 1, 1, 0, 0,
        1, 1, 0, 0, 0, 0, 0, 0, 0, 0, 1, 1
    ];
    proof {
        reveal(alien_three_mask_one_data);
        assert(v@ =~= alien_three_mask_one_data());
    }
    v
}

/// The mask bytes of alien kind C, walk frame two (12 x 8), as a specification-level value.
#[verifier::opaque]
pub open spec fn alien_three_mask_two_data() -> Seq<u8> {
    seq![
        0u8, 0, 0, 0, 1, 1, 1, 1, 0, 0, 0, 0,
        0, 1, 1, 1, 1, 1, 1, 1, 1, 1, 1, 0,
        1, 1, 1, 1, 1, 1, 1, 1, 1, 1, 1, 1,
        1, 1, 1, 0, 0, 1, 1, 0, 0, 1, 1, 1,
        1, 1, 1, 1, 1, 1, 1, 1, 1, 1, 1, 1,
        0, 0, 1, 1, 1, 0, 0, 1, 1, 1, 0, 0,
        0, 1, 1, 0, 0, 1, 1, 0, 0, 1, 1, 0,
        0, 0, 1, 1, 0, 0, 0, 0, 1, 1, 0, 0
    ]
}

/// Pixel mask of alien kind C, walk frame two (12 x 8).
pub fn alien_three_mask_two() -> (v: Vec<u8>)
    ensures
        v@.len() == 96,
        forall|i: int| 0 <= i < v@.len() ==> v@[i] <= 1,
        v@ == alien_three_mask_two_data(),
{
    let v: Vec<u8> = vec![
        0, 0, 0, 0, 1, 1, 1, 1, 0, 0, 0, 0,
        0, 1, 1, 1, 1, 1, 1, 1, 1, 1, 1, 0,
        1, 1, 1, 1, 1, 1, 1, 1, 1, 1, 1, 1,
        1, 1, 1, 0, 0, 1, 1, 0, 0, 1, 1, 1,
        1, 1, 1, 1, 1, 1, 1, 1, 1, 1, 1, 1,
        0, 0, 1, 1, 1, 0, 0, 1, 1, 1, 0, 0,
        0, 1, 1, 0, 0, 1, 1, 0, 0, 1, 1, 0,
        0, 0, 1, 1, 0, 0, 0, 0, 1, 1, 0, 0
    ];
    proof {
        reveal(alien_three_mask_two_data);
        assert(v@ =~= alien_three_mask_two_data());
    }
    v
}

/// The mask bytes of the shared alien explosion frame (12 x 8), as a specification-level value.
#[verifier::opaque]
pub open spec fn explosion_mask_data() -> Seq<u8> {
    seq![
        0u8, 0, 0, 0, 0, 0, 0, 0, 0, 0, 0, 0,
        0, 1, 0, 0, 1, 0, 0, 1, 0, 0, 1, 0,
        0, 0, 1, 0, 0, 1, 1, 0, 0, 1, 0, 0,
        0, 0, 0, 1, 0, 0, 0, 0, 1, 0, 0, 0,
        1, 1, 0, 0, 0, 0, 0, 0, 0, 0, 1, 1,
        0, 0, 0, 1, 0, 0, 0, 0, 1, 0, 0, 0,
        0, 0, 1, 0, 0, 1, 1, 0, 0, 1, 0, 0,
        0, 1, 0, 0, 1, 0, 0, 1, 0, 0, 1, 0
    ]
}

/// Pixel mask of the shared alien explosion frame (12 x 8).
pub fn explosion_mask() -> (v: Vec<u8>)
    ensures
        v@.len() == 96,
        forall|i: int| 0 <= i < v@.len() ==> v@[i] <= 1,
        v@ == explosion_mask_data(),
{
    let v: Vec<u8> = vec![
        0, 0, 0, 0, 0, 0, 0, 0, 0, 0, 0, 0,
        0, 1, 0, 0, 1, 0, 0, 1, 0, 0, 1, 0,
        0, 0, 1, 0, 0, 1, 1, 0, 0, 1, 0, 0,
        0, 0, 0, 1, 0, 0, 0, 0, 1, 0, 0, 0,
        1, 1, 0, 0, 0, 0, 0, 0, 0, 0, 1, 1,
        0, 0, 0, 1, 0, 0, 0, 0, 1, 0, 0, 0,
        0, 0, 1, 0, 0, 1, 1, 0, 0, 1, 0, 0,
        0, 1, 0, 0, 1, 0, 0, 1, 0, 0, 1, 0
    ];
    proof {
        reveal(explosion_mask_data);
        assert(v@ =~= explosion_mask_data());
    }
    v
}

/// The mask bytes of the player cannon (11 x 7), as a specification-level value.
#[verifier::opaque]
pub open spec fn player_mask_data() -> Seq<u8> {
    seq![
        0u8, 0, 0, 0, 0, 1, 0, 0, 0, 0, 0,
        0, 0, 0, 0, 1, 1, 1, 0, 0, 0, 0,
        0, 0, 0, 0, 1, 1, 1, 0, 0, 0, 0,
        0, 1, 1, 1, 1, 1, 1, 1, 1, 1, 0,
        1, 1, 1, 1, 1, 1, 1, 1, 1, 1, 1,
        1, 1, 1, 1, 1, 1, 1, 1, 1, 1, 1,
        1, 1, 1, 1, 1, 1, 1, 1, 1, 1, 1
    ]
}

/// Pixel mask of the player cannon (11 x 7).
pub fn player_mask() -> (v: Vec<u8>)
    ensures
        v@.len() == 77,
        forall|i: int| 0 <= i < v@.len() ==> v@[i] <= 1,
        v@ == player_mask_data(),
{
    let v: Vec<u8> = vec![
        0, 0, 0, 0, 0, 1, 0, 0, 0, 0, 0,
        0, 0, 0, 0, 1, 1, 1, 0, 0, 0, 0,
        0, 0, 0, 0, 1, 1, 1, 0, 0, 0, 0,
        0, 1, 1, 1, 1, 1, 1, 1, 1, 1, 0,
        1, 1, 1, 1, 1, 1, 1, 1, 1, 1, 1,
        1, 1, 1, 1, 1, 1, 1, 1, 1, 1, 1,
        1, 1, 1, 1, 1, 1, 1, 1, 1, 1, 1
    ];
    proof {
        reveal(player_mask_data);
        assert(v@ =~= player_mask_data());
    }
    v
}

/// The mask bytes of the player explosion (11 x 7), as a specification-level value.
#[verifier::opaque]
pub open spec fn player_explosion_mask_data() -> Seq<u8> {
    seq![
        1u8, 0, 0, 0, 1, 0, 1, 0, 0, 0, 1,
        0, 1, 0, 0, 0, 1, 0, 0, 0, 1, 0,
        1, 0, 1, 0, 1, 0, 1, 0, 1, 0, 1,
        0, 1, 1, 0, 0, 0, 0, 0, 1, 1, 0,
        1, 1, 1, 1, 1, 1, 1, 1, 1, 1, 1,
        1, 1, 1, 1, 1, 1, 1, 1, 1, 1, 1,
        1, 1, 1, 1, 1, 1, 1, 1, 1, 1, 1
    ]
}

/// Pixel mask of the player explosion (11 x 7).
pub fn player_explosion_mask() -> (v: Vec<u8>)
    ensures
        v@.len() == 77,
        forall|i: int| 0 <= i < v@.len() ==> v@[i] <= 1,
        v@ == player_explosion_mask_data(),
{
    let v: Vec<u8> = vec![
        1, 0, 0, 0, 1, 0, 1, 0, 0, 0, 1,
        0, 1, 0, 0, 0, 1, 0, 0, 0, 1, 0,
        1, 0, 1, 0, 1, 0, 1, 0, 1, 0, 1,
        0, 1, 1, 0, 0, 0, 0, 0, 1, 1, 0,
        1, 1, 1, 1, 1, 1, 1, 1, 1, 1, 1,
        1, 1, 1, 1, 1, 1, 1, 1, 1, 1, 1,
        1, 1, 1, 1, 1, 1, 1, 1, 1, 1, 1
    ];
    proof {
        reveal(player_explosion_mask_data);
        assert(v@ =~= player_explosion_mask_data());
    }
    v
}

/// The mask bytes of a missile (1 x 3), as a specification-level value.
#[verifier::opaque]
pub open spec fn missile_mask_data() -> Seq<u8> {
    seq![1u8, 1, 1
    ]
}

/// Pixel mask of a missile (1 x 3).
pub fn missile_mask() -> (v: Vec<u8>)
    ensures
        v@.len() == 3,
        forall|i: int| 0 <= i < v@.len() ==> v@[i] <= 1,
        v@ == missile_mask_data(),
{
    let v: Vec<u8> = vec![1, 1, 1
    ];
    proof {
        reveal(missile_mask_data);
        assert(v@ =~= missile_mask_data());
    }
    v
}

/// The mask bytes of a bomb (3 x 3), as a specification-level value.
#[verifier::opaque]
pub open spec fn bomb_mask_data() -> Seq<u8> {
    seq![
        1u8, 1, 1,
        0, 1, 0,
        0, 1, 0
    ]
}

/// Pixel mask of a bomb (3 x 3).
pub fn bomb_mask() -> (v: Vec<u8>)
    ensures
        v@.len() == 9,
        forall|i: int| 0 <= i < v@.len() ==> v@[i] <= 1,
        v@ == bomb_mask_data(),
{
    let v: Vec<u8> = vec![
        1, 1, 1,
        0, 1, 0,
        0, 1, 0
    ];
    proof {
        reveal(bomb_mask_data);
        assert(v@ =~= bomb_mask_data());
    }
    v
}

} // verus!
