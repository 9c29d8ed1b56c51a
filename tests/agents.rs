use last_of_ants::clues::{ClueReveal, Clues};
use last_of_ants::goal::{stored_food, update_ant_goal, update_ant_queen, AntGoal, Object};
use last_of_ants::grid::{Cell, Dir, Grid};
use last_of_ants::job::Job;
use last_of_ants::nav_mesh::{spawn_nav_mesh, NavMesh};
use last_of_ants::pheromones::{PheromoneKind, N_PHEROMONE_KINDS};
use last_of_ants::position::{
    assert_ant, update_ant_position_kind, AntPositionKind, PositionAction, PositionInput,
};

fn mesh(rows: &[&str]) -> NavMesh {
    let mut cells = Vec::new();
    for row in rows {
        for c in row.chars() {
            cells.push(match c {
                '#' => Cell::Ground,
                '.' => Cell::EmptyUnderground,
                _ => Cell::EmptyOverground,
            });
        }
    }
    spawn_nav_mesh(&Grid { cells, width: rows[0].len(), height: rows.len() }).unwrap()
}

fn input(kind: AntPositionKind, current: usize) -> PositionInput {
    PositionInput {
        kind,
        current,
        below_clipping: false,
        closest_wall: None,
        contacts_empty: false,
        heading_right: false,
        heading_down: false,
    }
}

#[test]
fn jobs_follow_their_pheromone() {
    assert_eq!(Job::Wander.follows(), PheromoneKind::Default);
    assert_eq!(Job::Food.follows(), PheromoneKind::Food);
    assert_eq!(Job::Storage.follows(), PheromoneKind::Storage);
    assert_eq!(Job::Thief.follows(), PheromoneKind::Storage);
    assert_eq!(Job::Offering.follows(), PheromoneKind::Zombqueen);
    assert_eq!(Job::default(), Job::Wander);
}

#[test]
fn next_job_cycles() {
    assert_eq!(Job::Wander.next_job(), Job::Wander);
    assert_eq!(Job::Food.next_job(), Job::Storage);
    assert_eq!(Job::Storage.next_job(), Job::Food);
    assert_eq!(Job::Thief.next_job(), Job::Offering);
    assert_eq!(Job::Offering.next_job(), Job::Thief);
}

#[test]
fn channel_indices() {
    assert_eq!(N_PHEROMONE_KINDS, 5);
    assert_eq!(PheromoneKind::Default.index(), 0);
    assert_eq!(PheromoneKind::Food.index(), 2);
    assert_eq!(PheromoneKind::Zombant.index(), 4);
}

#[test]
fn food_and_storage_alternate() {
    let mut goal = AntGoal { job: Job::Food, holds: 0 };
    let mut food = Object { kind: PheromoneKind::Food, quantity: Some(3) };
    let mut store = Object { kind: PheromoneKind::Storage, quantity: Some(0) };
    for round in 0..3 {
        assert!(update_ant_goal(&mut goal, &mut food));
        assert_eq!(goal, AntGoal { job: Job::Storage, holds: 1 });
        // the food object is not what a storage-bound ant looks for
        assert!(!update_ant_goal(&mut goal, &mut food));
        assert!(update_ant_goal(&mut goal, &mut store));
        assert_eq!(goal, AntGoal { job: Job::Food, holds: 0 });
        assert_eq!(store.quantity, Some(round + 1));
    }
    assert_eq!(food.quantity, Some(0));
    // an inexhaustible storage stays inexhaustible
    let mut endless = Object { kind: PheromoneKind::Storage, quantity: None };
    goal = AntGoal { job: Job::Storage, holds: 1 };
    assert!(update_ant_goal(&mut goal, &mut endless));
    assert_eq!(goal, AntGoal { job: Job::Food, holds: 0 });
    assert_eq!(endless.quantity, None);
}

#[test]
fn exhausted_food_stays_at_zero() {
    let mut goal = AntGoal { job: Job::Food, holds: 0 };
    let mut food = Object { kind: PheromoneKind::Food, quantity: Some(0) };
    assert!(goal.reached_food_target(&mut food));
    assert_eq!(food.quantity, Some(0));
    let mut endless = Object { kind: PheromoneKind::Food, quantity: None };
    assert!(goal.reached_food_target(&mut endless));
    assert_eq!(endless.quantity, None);
}

#[test]
fn thief_robs_storage_and_feeds_queen() {
    let mut goal = AntGoal { job: Job::Thief, holds: 0 };
    let mut store = Object { kind: PheromoneKind::Storage, quantity: Some(3) };
    assert!(goal.reached_object(&mut store));
    assert_eq!(goal, AntGoal { job: Job::Offering, holds: 2 });
    assert_eq!(store.quantity, Some(1));
    let mut hoard = 5;
    assert!(goal.reached_zombqueen(&mut hoard));
    assert_eq!(hoard, 7);
    assert_eq!(goal, AntGoal { job: Job::Thief, holds: 0 });
    assert!(!goal.reached_zombqueen(&mut hoard));
    assert_eq!(hoard, 7);
    let mut poor = Object { kind: PheromoneKind::Storage, quantity: Some(1) };
    assert!(goal.reached_storage_target(&mut poor));
    assert_eq!(poor.quantity, Some(0));
}

#[test]
fn thief_at_unbounded_storage_takes_two() {
    let mut goal = AntGoal { job: Job::Thief, holds: 0 };
    let mut store = Object { kind: PheromoneKind::Storage, quantity: None };
    assert!(goal.reached_storage_target(&mut store));
    assert_eq!(goal, AntGoal { job: Job::Offering, holds: 2 });
    assert_eq!(store.quantity, None);
}

#[test]
fn queen_takes_the_offering_on_her_node() {
    let mut goal = AntGoal { job: Job::Offering, holds: 2 };
    let mut hoard = 10;
    assert!(!update_ant_queen(&mut goal, 3, 8, &mut hoard));
    assert_eq!((goal, hoard), (AntGoal { job: Job::Offering, holds: 2 }, 10));
    assert!(update_ant_queen(&mut goal, 8, 8, &mut hoard));
    assert_eq!((goal, hoard), (AntGoal { job: Job::Thief, holds: 0 }, 12));
    assert!(!update_ant_queen(&mut goal, 8, 8, &mut hoard));
    assert_eq!(hoard, 12);
}

#[test]
fn storage_totals() {
    let objects = vec![
        Object { kind: PheromoneKind::Storage, quantity: Some(4) },
        Object { kind: PheromoneKind::Food, quantity: Some(10) },
        Object { kind: PheromoneKind::Storage, quantity: None },
        Object { kind: PheromoneKind::Storage, quantity: Some(u64::MAX) },
    ];
    assert_eq!(stored_food(&objects), 4 + u64::MAX as u128);
    assert_eq!(stored_food(&vec![]), 0);
}

#[test]
fn up_side_wall_at_zero_depth_steps_into_background() {
    let m = mesh(&["...", "...", "..."]);
    let mut inp = input(AntPositionKind::HorizontalWall { is_up_side: true }, 6);
    inp.below_clipping = true;
    // pushed toward negative y
    assert_eq!(update_ant_position_kind(&m, &inp), PositionAction::ToBackground { push: Dir::Down });
    let mut inp = input(AntPositionKind::VerticalWall { is_left_side: true }, 2);
    inp.below_clipping = true;
    assert_eq!(update_ant_position_kind(&m, &inp), PositionAction::ToBackground { push: Dir::Right });
}

#[test]
fn surface_edge_only_clamps_depth() {
    let m = mesh(&[".o", "##"]);
    let mut inp = input(AntPositionKind::HorizontalWall { is_up_side: false }, 8);
    inp.below_clipping = true;
    assert_eq!(update_ant_position_kind(&m, &inp), PositionAction::ClampDepth);
}

#[test]
fn background_ant_attaches_to_closest_wall() {
    let m = mesh(&["...", ".#.", "..."]);
    let mut inp = input(AntPositionKind::Background, 5);
    assert_eq!(update_ant_position_kind(&m, &inp), PositionAction::Stay);
    inp.closest_wall = Some(8);
    assert_eq!(
        update_ant_position_kind(&m, &inp),
        PositionAction::PlaceOnHorizontalWall { node: 8, is_up_side: false }
    );
    inp.closest_wall = Some(19);
    assert_eq!(
        update_ant_position_kind(&m, &inp),
        PositionAction::PlaceOnVerticalWall { node: 19, is_left_side: false }
    );
    inp.closest_wall = Some(0);
    assert_eq!(update_ant_position_kind(&m, &inp), PositionAction::Remove);
}

#[test]
fn wall_contacts_switch_or_follow() {
    let m = mesh(&["...", ".#.", "..."]);
    let mut inp = input(AntPositionKind::HorizontalWall { is_up_side: false }, 8);
    inp.closest_wall = Some(27);
    assert_eq!(
        update_ant_position_kind(&m, &inp),
        PositionAction::PlaceOnVerticalWall { node: 27, is_left_side: true }
    );
    inp.closest_wall = Some(6);
    assert_eq!(update_ant_position_kind(&m, &inp), PositionAction::SetCurrentNode { node: 6 });
    let mut inp = input(AntPositionKind::VerticalWall { is_left_side: false }, 19);
    inp.closest_wall = Some(8);
    assert_eq!(
        update_ant_position_kind(&m, &inp),
        PositionAction::PlaceOnHorizontalWall { node: 8, is_up_side: false }
    );
    inp.closest_wall = Some(2);
    assert_eq!(update_ant_position_kind(&m, &inp), PositionAction::SetCurrentNode { node: 2 });
}

#[test]
fn losing_contact_turns_convex_corner() {
    let m = mesh(&["...", ".#.", "..."]);
    let mut inp = input(AntPositionKind::HorizontalWall { is_up_side: false }, 8);
    inp.contacts_empty = true;
    inp.heading_right = true;
    assert_eq!(
        update_ant_position_kind(&m, &inp),
        PositionAction::PlaceOnVerticalWall { node: 27, is_left_side: true }
    );
    inp.heading_right = false;
    assert_eq!(
        update_ant_position_kind(&m, &inp),
        PositionAction::PlaceOnVerticalWall { node: 19, is_left_side: false }
    );
    let mut inp = input(AntPositionKind::VerticalWall { is_left_side: false }, 19);
    inp.contacts_empty = true;
    inp.heading_down = false;
    assert_eq!(
        update_ant_position_kind(&m, &inp),
        PositionAction::PlaceOnHorizontalWall { node: 8, is_up_side: false }
    );
}

#[test]
fn clipped_wall_leads_down_into_open_space() {
    let m = mesh(&[".o", "##"]);
    let mut inp = input(AntPositionKind::VerticalWall { is_left_side: false }, 4);
    inp.contacts_empty = true;
    inp.heading_down = true;
    assert_eq!(update_ant_position_kind(&m, &inp), PositionAction::ToBackground { push: Dir::Left });
}

#[test]
fn inconsistent_corner_removes_ant() {
    let m = mesh(&["...", ".#.", "..."]);
    // an up-side floor whose right link is a straight floor, not a wall
    let mut inp = input(AntPositionKind::HorizontalWall { is_up_side: true }, 1);
    inp.contacts_empty = true;
    inp.heading_right = true;
    assert_eq!(update_ant_position_kind(&m, &inp), PositionAction::Remove);
    // recorded on a background node while on a wall
    let mut inp = input(AntPositionKind::HorizontalWall { is_up_side: true }, 0);
    inp.below_clipping = true;
    assert_eq!(update_ant_position_kind(&m, &inp), PositionAction::Remove);
    let inp = input(AntPositionKind::HorizontalWall { is_up_side: true }, 1);
    assert_eq!(update_ant_position_kind(&m, &inp), PositionAction::Stay);
}

#[test]
fn position_kind_checks() {
    let m = mesh(&["...", ".#.", "..."]);
    assert_eq!(AntPositionKind::on_node(&m.nodes[0].unwrap()), AntPositionKind::Background);
    assert_eq!(
        AntPositionKind::on_node(&m.nodes[19].unwrap()),
        AntPositionKind::VerticalWall { is_left_side: false }
    );
    assert_eq!(
        AntPositionKind::on_node(&m.nodes[8].unwrap()),
        AntPositionKind::HorizontalWall { is_up_side: false }
    );
    assert!(assert_ant(&m, AntPositionKind::Background, 0));
    assert!(!assert_ant(&m, AntPositionKind::Background, 8));
    assert!(!assert_ant(&m, AntPositionKind::Background, 20));
    assert!(assert_ant(&m, AntPositionKind::HorizontalWall { is_up_side: true }, 8));
    assert!(!assert_ant(&m, AntPositionKind::Background, 1000));
}

#[test]
fn clues_reveal_in_order() {
    let mut c = Clues { z0_primary_color: false, z0_secondary_color: false, pheromone_view_charges: 0 };
    assert_eq!(c.reveal_next(false), ClueReveal::SecondaryColor);
    assert_eq!(c.reveal_next(false), ClueReveal::PrimaryColor);
    assert_eq!(c.reveal_next(true), ClueReveal::PheromoneViewCharge);
    assert_eq!(c.pheromone_view_charges, 1);
    let mut c = Clues { z0_primary_color: false, z0_secondary_color: false, pheromone_view_charges: 0 };
    assert_eq!(c.reveal_next(true), ClueReveal::PrimaryColor);
    assert_eq!(c.reveal_next(true), ClueReveal::SecondaryColor);
    assert!(c.z0_primary_color && c.z0_secondary_color);
}
