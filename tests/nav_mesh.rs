use last_of_ants::grid::{Cell, Dir, Grid, Index2d};
use last_of_ants::nav_mesh::{spawn_nav_mesh, EdgeNeighbor, EdgeNeighborKind, NavMesh, NavMeshError, NavNode};
use last_of_ants::pheromones::{apply_sources, gradient_sources, GradientComponent};

fn grid(rows: &[&str]) -> Grid {
    let mut cells = Vec::new();
    for row in rows {
        for c in row.chars() {
            cells.push(match c {
                '#' => Cell::Ground,
                '.' => Cell::EmptyUnderground,
                _ => Cell::EmptyOverground,
            });
        }
    }
    Grid { cells, width: rows[0].len(), height: rows.len() }
}

fn counts(m: &NavMesh) -> (usize, usize) {
    let mut bg = 0;
    let mut edges = 0;
    for n in m.nodes.iter().flatten() {
        match n {
            NavNode::Background { .. } => bg += 1,
            _ => edges += 1,
        }
    }
    (bg, edges)
}

#[test]
fn open_three_by_three_has_nine_backgrounds_and_boundary_walls() {
    let m = spawn_nav_mesh(&grid(&["...", "...", "..."])).unwrap();
    assert_eq!(m.nodes.len(), 45);
    // every tile is open space; the only walls are the grid's boundary
    assert_eq!(counts(&m), (9, 12));
    assert_eq!(
        m.nodes[20],
        Some(NavNode::Background { up: 5, left: 15, down: 35, right: 25 })
    );
}

#[test]
fn center_wall_adds_four_edges_with_convex_corners() {
    let m = spawn_nav_mesh(&grid(&["...", ".#.", "..."])).unwrap();
    assert_eq!(counts(&m), (8, 16));
    assert_eq!(m.nodes[20], None);
    // floor of the top-middle tile, facing the wall
    assert_eq!(
        m.nodes[8],
        Some(NavNode::HorizontalEdge {
            left: EdgeNeighbor::Outward(19),
            right: EdgeNeighbor::Outward(27),
            back: Some(5),
            is_up_side: false,
        })
    );
    // right-facing wall of the middle-left tile links back to it
    assert_eq!(
        m.nodes[19],
        Some(NavNode::VerticalEdge {
            up: 8,
            up_kind: EdgeNeighborKind::Outward,
            down: 36,
            down_kind: EdgeNeighborKind::Outward,
            back: 15,
            is_left_side: false,
        })
    );
    // the background above the wall links down to its new edge
    assert_eq!(
        m.nodes[5],
        Some(NavNode::Background { up: 6, left: 0, down: 8, right: 10 })
    );
}

#[test]
fn two_walls_of_one_tile_meet_inward() {
    let m = spawn_nav_mesh(&grid(&["...", ".#.", "..."])).unwrap();
    assert_eq!(
        m.nodes[1],
        Some(NavNode::HorizontalEdge {
            left: EdgeNeighbor::Inward(2),
            right: EdgeNeighbor::Straight(6),
            back: Some(0),
            is_up_side: true,
        })
    );
    assert_eq!(
        m.nodes[2],
        Some(NavNode::VerticalEdge {
            up: 1,
            up_kind: EdgeNeighborKind::Inward,
            down: 17,
            down_kind: EdgeNeighborKind::Straight,
            back: 0,
            is_left_side: true,
        })
    );
}

#[test]
fn linked_walls_classify_each_other_alike() {
    let m = spawn_nav_mesh(&grid(&["o.oo", ".#..", "...#", "#.o.", "####"])).unwrap();
    assert!(m.clipped.iter().any(|c| *c));
    for (a, n) in m.nodes.iter().enumerate() {
        let links: Vec<(usize, EdgeNeighborKind)> = match n {
            Some(NavNode::VerticalEdge { up, up_kind, down, down_kind, .. }) => {
                vec![(*up, *up_kind), (*down, *down_kind)]
            }
            Some(NavNode::HorizontalEdge { left, right, .. }) => [left, right]
                .iter()
                .filter_map(|e| match e {
                    EdgeNeighbor::Straight(b) => Some((*b, EdgeNeighborKind::Straight)),
                    EdgeNeighbor::Inward(b) => Some((*b, EdgeNeighborKind::Inward)),
                    EdgeNeighbor::Outward(b) => Some((*b, EdgeNeighborKind::Outward)),
                    EdgeNeighbor::Absent => None,
                })
                .collect(),
            _ => vec![],
        };
        for (b, k) in links {
            // a wall link into open space is not a link between walls
            if matches!(m.nodes[b], Some(NavNode::Background { .. })) {
                assert!(m.clipped[a]);
                continue;
            }
            let back_links = match m.nodes[b] {
                Some(NavNode::VerticalEdge { up, up_kind, down, down_kind, .. }) => {
                    (up == a && up_kind == k) || (down == a && down_kind == k)
                }
                Some(NavNode::HorizontalEdge { left, right, .. }) => {
                    let e = match k {
                        EdgeNeighborKind::Straight => EdgeNeighbor::Straight(a),
                        EdgeNeighborKind::Inward => EdgeNeighbor::Inward(a),
                        EdgeNeighborKind::Outward => EdgeNeighbor::Outward(a),
                    };
                    left == e || right == e
                }
                _ => false,
            };
            assert!(back_links, "{} -> {}", a, b);
        }
    }
}

#[test]
fn every_link_resolves() {
    let m = spawn_nav_mesh(&grid(&["oo.o", "#..#", "..##", "#..."])).unwrap();
    for n in m.nodes.iter().flatten() {
        for id in n.neighbors() {
            assert!(m.nodes[id].is_some());
        }
        match n {
            NavNode::VerticalEdge { back, .. } | NavNode::HorizontalEdge { back: Some(back), .. } => {
                assert!(matches!(m.nodes[*back], Some(NavNode::Background { .. })));
            }
            _ => {}
        }
    }
}

#[test]
fn surface_edge_links_floor_of_open_tile() {
    let m = spawn_nav_mesh(&grid(&[".o", "##"])).unwrap();
    // surface edge under the overground tile: no back, linked to the open tile's floor
    assert_eq!(
        m.nodes[8],
        Some(NavNode::HorizontalEdge {
            left: EdgeNeighbor::Straight(3),
            right: EdgeNeighbor::Absent,
            back: None,
            is_up_side: false,
        })
    );
    // the open tile's floor continues onto the surface instead of turning up its wall
    assert_eq!(
        m.nodes[3],
        Some(NavNode::HorizontalEdge {
            left: EdgeNeighbor::Inward(2),
            right: EdgeNeighbor::Straight(8),
            back: Some(0),
            is_up_side: false,
        })
    );
    assert!(m.clipped[4]);
    assert!(!m.clipped[2]);
    // the clipped wall leads down into its tile's open space, not to the rerouted floor
    assert_eq!(
        m.nodes[4],
        Some(NavNode::VerticalEdge {
            up: 1,
            up_kind: EdgeNeighborKind::Inward,
            down: 0,
            down_kind: EdgeNeighborKind::Straight,
            back: 0,
            is_left_side: false,
        })
    );
    assert_eq!(m.lut.grid_edges[1].down, Some(8));
    assert_eq!(m.lut.grid_is_empty, vec![true, false, false, false]);
}

#[test]
fn neighbouring_surfaces_link_straight() {
    let m = spawn_nav_mesh(&grid(&["oo", "##"])).unwrap();
    assert_eq!(counts(&m), (0, 2));
    assert_eq!(
        m.nodes[3],
        Some(NavNode::HorizontalEdge {
            left: EdgeNeighbor::Absent,
            right: EdgeNeighbor::Straight(8),
            back: None,
            is_up_side: false,
        })
    );
}

#[test]
fn overground_at_the_bottom_has_no_surface() {
    let m = spawn_nav_mesh(&grid(&["#o"])).unwrap();
    assert_eq!(counts(&m), (0, 0));
}

#[test]
fn grid_of_wrong_size_is_refused() {
    let g = Grid { cells: vec![Cell::Ground; 5], width: 2, height: 2 };
    assert_eq!(spawn_nav_mesh(&g).err(), Some(NavMeshError::SizeMismatch));
    let g = Grid { cells: vec![], width: usize::MAX, height: 2 };
    assert_eq!(spawn_nav_mesh(&g).err(), Some(NavMeshError::TooLarge));
}

#[test]
fn neighbors_of_each_variant() {
    let bg = NavNode::Background { up: 1, left: 2, down: 3, right: 4 };
    assert_eq!(bg.neighbors(), vec![1, 2, 3, 4]);
    let v = NavNode::VerticalEdge {
        up: 7,
        up_kind: EdgeNeighborKind::Straight,
        down: 8,
        down_kind: EdgeNeighborKind::Inward,
        back: 9,
        is_left_side: true,
    };
    assert_eq!(v.neighbors(), vec![7, 8, 9]);
    let h = NavNode::HorizontalEdge {
        left: EdgeNeighbor::Absent,
        right: EdgeNeighbor::Outward(5),
        back: None,
        is_up_side: false,
    };
    assert_eq!(h.neighbors(), vec![5]);
    assert_eq!(EdgeNeighbor::Inward(3).get(), Some(3));
    assert_eq!(EdgeNeighbor::Absent.get(), None);
}

#[test]
fn gradient_sources_split_planar_and_foreground() {
    let m = spawn_nav_mesh(&grid(&["...", "...", "..."])).unwrap();
    let corner = m.nodes[0].unwrap();
    assert_eq!(
        gradient_sources(&m, &corner),
        vec![
            (1, GradientComponent::Foreground),
            (15, GradientComponent::Down),
            (2, GradientComponent::Foreground),
            (5, GradientComponent::Right),
        ]
    );
    let up_edge = m.nodes[1].unwrap();
    assert_eq!(
        gradient_sources(&m, &up_edge),
        vec![
            (2, GradientComponent::Left),
            (6, GradientComponent::Right),
            (0, GradientComponent::Background),
        ]
    );
    let left_edge = m.nodes[2].unwrap();
    assert_eq!(
        gradient_sources(&m, &left_edge),
        vec![
            (1, GradientComponent::Up),
            (17, GradientComponent::Down),
            (0, GradientComponent::Background),
        ]
    );
}

#[test]
fn index2d_steps_stay_on_the_grid() {
    let t = Index2d::new(4, 3, 2);
    assert_eq!((t.x, t.y), (1, 1));
    assert_eq!(t.i(), 4);
    assert!(t.down().is_none());
    assert_eq!(t.up().map(|u| u.i()), Some(1));
    assert_eq!(t.left().map(|u| u.i()), Some(3));
    assert_eq!(t.right().map(|u| u.i()), Some(5));
    assert!(Index2d::new(0, 3, 2).left().is_none());
    assert!(Index2d::new(0, 3, 2).step(Dir::Up).is_none());
    assert!(Index2d::new(2, 3, 2).right().is_none());
}

#[test]
fn lookup_table_finds_open_tiles() {
    let m = spawn_nav_mesh(&grid(&[".#", ".."])).unwrap();
    assert_eq!(m.lut.get_tile_entity(0, 0), Some((0, 0)));
    assert_eq!(m.lut.get_tile_entity(1, 0), None);
    assert_eq!(m.lut.get_tile_entity(1, 1), Some((15, 3)));
    assert_eq!(m.lut.get_tile_entity(2, 0), None);
    assert_eq!(m.lut.get_tile_entity(0, 2), None);
    assert_eq!(m.lut.get_tile_entity_grid(1, 0), Some((5, 1)));
    assert_eq!(m.lut.get_tile_entity_grid(0, 2), None);
    assert_eq!(m.lut.get_tile_edges(0).right, Some(4));
    assert_eq!(m.lut.get_tile_edges(0).down, None);
}

#[test]
fn sources_override_concentrations() {
    let mut c = vec![[1.0_f32; 5], [2.0; 5], [3.0; 5]];
    let sources = vec![None, Some([0.0, 9.0, 0.0, 0.0, 0.5])];
    apply_sources(&mut c, &sources);
    assert_eq!(c, vec![[1.0; 5], [0.0, 9.0, 0.0, 0.0, 0.5], [3.0; 5]]);
}

#[test]
fn no_node_links_to_itself() {
    let m = spawn_nav_mesh(&grid(&["o.oo", ".#..", "...#", "#.o.", "####"])).unwrap();
    for (a, n) in m.nodes.iter().enumerate() {
        if let Some(n) = n {
            assert!(!n.neighbors().contains(&a));
        }
    }
}

#[test]
fn lookup_table_hits_background_nodes() {
    let m = spawn_nav_mesh(&grid(&["o.oo", ".#..", "...#", "#.o.", "####"])).unwrap();
    for y in 0..5 {
        for x in 0..4 {
            if let Some((id, index)) = m.lut.get_tile_entity(x, y) {
                assert_eq!(index, x + 4 * y);
                assert!(matches!(m.nodes[id], Some(NavNode::Background { .. })));
            }
        }
    }
}
