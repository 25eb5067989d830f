use rock_paper_scissors::{GameMovement, GameResult, GameState, SecretGameMovement};

const ALICE: u64 = 1;
const BOB: u64 = 2;

#[test]
fn check_movement_rules() {
    let rock = GameMovement::Rock;
    assert_eq!(rock.play(GameMovement::Rock), GameResult::Draw);
    assert_eq!(rock.play(GameMovement::Paper), GameResult::Lose);
    assert_eq!(rock.play(GameMovement::Scissors), GameResult::Win);

    let paper = GameMovement::Paper;
    assert_eq!(paper.play(GameMovement::Rock), GameResult::Win);
    assert_eq!(paper.play(GameMovement::Paper), GameResult::Draw);
    assert_eq!(paper.play(GameMovement::Scissors), GameResult::Lose);

    let scissors = GameMovement::Scissors;
    assert_eq!(scissors.play(GameMovement::Rock), GameResult::Lose);
    assert_eq!(scissors.play(GameMovement::Paper), GameResult::Win);
    assert_eq!(scissors.play(GameMovement::Scissors), GameResult::Draw);
}

#[test]
fn game_movement_can_be_converted_to_bytes() {
    assert!(GameMovement::Rock.to_bytes()[0] == 1_u8);
    assert!(GameMovement::Paper.to_bytes()[0] == 2_u8);
    assert!(GameMovement::Scissors.to_bytes()[0] == 3_u8);
}

const MOVES: [GameMovement; 3] = [GameMovement::Rock, GameMovement::Paper, GameMovement::Scissors];

#[test]
fn resolution_never_unplayed_and_swaps_roles() {
    for a in MOVES {
        assert_eq!(a.play(a), GameResult::Draw);
        for b in MOVES {
            let r = a.play(b);
            assert_ne!(r, GameResult::NotPlayed);
            let swapped = match r {
                GameResult::Win => GameResult::Lose,
                GameResult::Lose => GameResult::Win,
                other => other,
            };
            assert_eq!(b.play(a), swapped);
        }
    }
}

#[test]
fn commitment_accepts_its_own_move_and_secret() {
    for m in MOVES {
        for secret in [0u64, 1, 2, 42, u64::MAX] {
            let c = SecretGameMovement::new(m, secret);
            assert!(c.is_equal(m, secret));
        }
    }
}

#[test]
fn commitment_rejects_other_move_or_secret() {
    let c = SecretGameMovement::new(GameMovement::Rock, 1);
    assert!(!c.is_equal(GameMovement::Rock, 2));
    assert!(!c.is_equal(GameMovement::Paper, 1));
    assert!(!c.is_equal(GameMovement::Scissors, 1));
    assert!(!c.is_equal(GameMovement::Paper, 2));
    assert_ne!(c, SecretGameMovement::new(GameMovement::Rock, 2));
}

#[test]
fn commitment_hashes_tag_then_little_endian_secret() {
    let secret: u64 = 0x0102_0304_0506_0708;
    let mut bytes = vec![2u8];
    bytes.extend_from_slice(&secret.to_le_bytes());
    let expected = sp_io::hashing::twox_64(&bytes);
    assert_eq!(SecretGameMovement::new(GameMovement::Paper, secret).0, expected);
    assert_ne!(&expected[..], &bytes[..8]);
}

#[test]
fn commitment_opens_only_its_own_digest() {
    let c = SecretGameMovement::new(GameMovement::Scissors, 9);
    assert!(c.opens(c.0));
    let mut other = c.0;
    other[7] ^= 1;
    assert!(!c.opens(other));
    assert!(!c.opens(SecretGameMovement::new(GameMovement::Scissors, 10).0));
}

#[test]
fn game_state_slots_fill_in_order() {
    let mut g = GameState::default();
    assert!(g.has_free_slots());
    assert!(!g.has_player(ALICE));
    assert_eq!(g.commitment_of_player(ALICE), None);
    assert_eq!(g.commitment_of_other(ALICE), None);

    assert!(g.add_player(ALICE, GameMovement::Rock, 7));
    assert_eq!(g.player1.map(|p| p.player), Some(ALICE));
    assert!(g.player2.is_none());
    assert!(g.has_player(ALICE));
    assert!(g.has_free_slots());
    assert_eq!(
        g.commitment_of_player(ALICE),
        Some(SecretGameMovement::new(GameMovement::Rock, 7))
    );

    assert!(g.add_player(BOB, GameMovement::Paper, 8));
    assert_eq!(g.player2.map(|p| p.player), Some(BOB));
    assert!(!g.has_free_slots());
    assert_eq!(
        g.commitment_of_player(BOB),
        Some(SecretGameMovement::new(GameMovement::Paper, 8))
    );

    assert_eq!(
        g.commitment_of_other(ALICE),
        Some(SecretGameMovement::new(GameMovement::Paper, 8))
    );
    assert_eq!(
        g.commitment_of_other(BOB),
        Some(SecretGameMovement::new(GameMovement::Rock, 7))
    );
    assert_eq!(g.commitment_of_player(3), None);

    let before = g;
    assert!(!g.add_player(3, GameMovement::Scissors, 9));
    assert_eq!(g, before);
    assert_eq!(g.game_result, GameResult::NotPlayed);
    assert_eq!(g.winner, None);
}
