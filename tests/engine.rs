use spacegame::components::{Base2D, Color, Health, UIBarStyle};
use spacegame::ecs::{ComponentStore, EntityRegistry};
use spacegame::geometry::{Anchor, BoundingBox2D, Rect, Vector2};
use spacegame::render::{DrawCommand, DrawError, DrawSystemKind};
use spacegame::world::World;

fn base_at(x: i64, y: i64, w: i64, h: i64) -> Base2D {
    Base2D::new(Vector2::new(x, y), Vector2::new(w, h))
}

#[test]
fn box_size_and_center() {
    let b = BoundingBox2D::new(10, 20, 30, 40);
    assert_eq!(b.width(), 30);
    assert_eq!(b.height(), 40);
    assert_eq!(b.center(), Vector2::new(25, 40));
    assert_eq!((b.x1, b.y1, b.x2, b.y2), (10, 20, 40, 60));
}

#[test]
fn box_with_odd_size_rounds_toward_origin() {
    let b = BoundingBox2D::new(-3, 0, 5, 7);
    assert_eq!(b.width(), 5);
    assert_eq!(b.height(), 7);
    assert_eq!(b.center(), Vector2::new(-1, 3));
}

#[test]
fn empty_box_has_one_point() {
    let b = BoundingBox2D::new(4, 9, 0, 0);
    assert_eq!(b.width(), 0);
    assert_eq!(b.height(), 0);
    for a in Anchor::values() {
        assert_eq!(b.calc(a), Vector2::new(4, 9));
    }
}

#[test]
fn largest_box_has_exact_size() {
    let b = BoundingBox2D::new(i32::MIN, i32::MIN, i32::MAX, i32::MAX);
    assert_eq!(b.width(), i32::MAX as i64);
    assert_eq!(b.x2, -1);
    let full = BoundingBox2D::new_v(Vector2::new(i32::MIN as i64, 0), Vector2::new(i32::MAX as i64, 0));
    assert_eq!(full.calc(Anchor::BottomRight), Vector2::new(-1, 0));
}

#[test]
fn box_from_vectors() {
    let b = BoundingBox2D::new_v(Vector2::new(100, 280), Vector2::new(36, 48));
    assert_eq!(b, BoundingBox2D::new(100, 280, 36, 48));
}

#[test]
fn anchors_of_sample_box() {
    let b = BoundingBox2D::new(0, 0, 100, 50);
    assert_eq!(b.calc(Anchor::TopLeft), Vector2::new(0, 0));
    assert_eq!(b.calc(Anchor::TopCenter), Vector2::new(50, 0));
    assert_eq!(b.calc(Anchor::TopRight), Vector2::new(100, 0));
    assert_eq!(b.calc(Anchor::CenterLeft), Vector2::new(0, 25));
    assert_eq!(b.calc(Anchor::Center), Vector2::new(50, 25));
    assert_eq!(b.calc(Anchor::CenterRight), Vector2::new(100, 25));
    assert_eq!(b.calc(Anchor::BottomLeft), Vector2::new(0, 50));
    assert_eq!(b.calc(Anchor::BottomCenter), Vector2::new(50, 50));
    assert_eq!(b.calc(Anchor::BottomRight), Vector2::new(100, 50));
}

#[test]
fn anchor_values_in_order() {
    let v = Anchor::values();
    assert_eq!(v.len(), 9);
    assert_eq!(v[0], Anchor::TopLeft);
    assert_eq!(v[4], Anchor::Center);
    assert_eq!(v[8], Anchor::BottomRight);
}

#[test]
fn box_as_rect() {
    let r = Rect::from(BoundingBox2D::new(100, 280, 36, 48));
    assert_eq!(r, Rect { x: 100, y: 280, width: 36, height: 48 });
}

#[test]
fn entity_ids_distinct_increasing() {
    let mut reg = EntityRegistry::new();
    assert_eq!(reg.last(), 0);
    let a = reg.allocate();
    let b = reg.allocate();
    let c = reg.allocate();
    assert_eq!(a, 1);
    assert!(a < b && b < c);
    assert_eq!((b, c), (2, 3));
    assert_eq!(reg.last(), 3);
}

#[test]
fn world_entities_start_at_one() {
    let mut w = World::new();
    assert_eq!(w.last_entity(), 0);
    assert_eq!(w.new_entity(), 1);
    assert_eq!(w.new_entity(), 2);
    assert_eq!(w.last_entity(), 2);
}

#[test]
fn damage_below_current_health_subtracts() {
    let mut h = Health::new(20);
    h.take_damage(5);
    assert_eq!(h.health(), 15);
    assert_eq!(h.max_health(), 20);
    assert_eq!(h.bar_style(), UIBarStyle::Inline);
}

#[test]
fn damage_at_or_above_current_health_clamps_to_zero() {
    let mut h = Health::new(20);
    h.take_damage(20);
    assert_eq!(h.health(), 0);
    let mut g = Health::new(7);
    g.take_damage(u16::MAX);
    assert_eq!(g.health(), 0);
    g.take_damage(1);
    assert_eq!(g.health(), 0);
    assert_eq!(g.max_health(), 7);
}

#[test]
fn zero_damage_changes_nothing() {
    let mut h = Health::new(0);
    h.take_damage(0);
    assert_eq!(h.health(), 0);
    let mut g = Health::new(9);
    g.take_damage(0);
    assert_eq!(g.health(), 9);
}

#[test]
fn store_iteration_order() {
    let mut s: ComponentStore<u32> = ComponentStore::new();
    s.attach(5, 50);
    s.attach(2, 20);
    s.attach(9, 90);
    assert_eq!(s.len(), 3);
    assert_eq!(s.entities(), vec![5, 2, 9]);
    assert_eq!(*s.component_at(0), 50);
    assert_eq!(*s.component_at(1), 20);
    assert_eq!(*s.component_at(2), 90);
    assert_eq!(s.entity_at(2), 9);
}

#[test]
fn store_find_first_match() {
    let mut s: ComponentStore<u32> = ComponentStore::new();
    assert_eq!(s.find(1), None);
    s.attach(1, 10);
    s.attach(2, 20);
    s.attach(1, 11);
    assert_eq!(s.find(1), Some(&10));
    assert_eq!(s.find(2), Some(&20));
    assert_eq!(s.find(3), None);
    assert_eq!(s.position(1), Some(0));
    assert_eq!(s.position(2), Some(1));
    assert_eq!(s.len(), 3);
}

#[test]
fn join_keeps_only_shared_entities() {
    let mut a: ComponentStore<u8> = ComponentStore::new();
    let mut b: ComponentStore<u8> = ComponentStore::new();
    a.attach(1, 0);
    a.attach(2, 0);
    a.attach(3, 0);
    b.attach(3, 0);
    b.attach(4, 0);
    b.attach(1, 0);
    b.attach(1, 0);
    assert_eq!(a.join(&b), vec![(0, 2), (2, 0)]);
    let empty: ComponentStore<u8> = ComponentStore::new();
    assert_eq!(a.join(&empty), vec![]);
    assert_eq!(empty.join(&a), vec![]);
}

#[test]
fn health_draw_skips_entities_without_health() {
    let mut w = World::new();
    let e1 = w.new_entity();
    let e2 = w.new_entity();
    w.attach_base(e1, base_at(100, 280, 36, 48));
    w.attach_base(e2, base_at(400, 380, 76, 48));
    w.attach_health(e1, Health::new(20));
    let cmds = Health::draw_system(&w).unwrap();
    assert_eq!(cmds.len(), 2);
    assert_eq!(
        cmds[1],
        DrawCommand::RectangleLines {
            rect: Rect { x: 78, y: 255, width: 80, height: 10 },
            line_width: 1,
            color: Color::white(),
        }
    );
}

#[test]
fn health_without_base_draws_nothing() {
    let mut w = World::new();
    let e1 = w.new_entity();
    w.attach_health(e1, Health::new(5));
    assert_eq!(Health::draw_system(&w), Ok(vec![]));
}

#[test]
fn hidden_bar_draws_nothing() {
    let mut w = World::new();
    let e = w.new_entity();
    w.attach_base(e, base_at(0, 0, 10, 10));
    let mut h = Health::new(3);
    h.set_bar_style(UIBarStyle::Hidden);
    assert_eq!(h.bar_style(), UIBarStyle::Hidden);
    assert_eq!(h.health(), 3);
    w.attach_health(e, h);
    assert_eq!(Health::draw_system(&w), Ok(vec![]));
}

#[test]
fn boss_bar_is_unimplemented() {
    let mut w = World::new();
    let e1 = w.new_entity();
    let e2 = w.new_entity();
    w.attach_base(e1, base_at(0, 0, 10, 10));
    w.attach_base(e2, base_at(50, 50, 10, 10));
    w.attach_health(e1, Health::new(4));
    let mut boss = Health::new(100);
    boss.set_bar_style(UIBarStyle::Boss);
    w.attach_health(e2, boss);
    assert_eq!(Health::draw_system(&w), Err(DrawError::Unimplemented));
    assert_eq!(DrawSystemKind::HealthBars.run(&w), Err(DrawError::Unimplemented));
    assert_eq!(DrawSystemKind::Bases.run(&w).unwrap().len(), 20);
}

#[test]
fn inline_bar_fill_follows_health() {
    let mut w = World::new();
    let e = w.new_entity();
    w.attach_base(e, base_at(0, 100, 20, 20));
    let mut h = Health::new(30);
    h.take_damage(10);
    w.attach_health(e, h);
    let cmds = Health::draw_system(&w).unwrap();
    assert_eq!(
        cmds,
        vec![
            DrawCommand::FilledRectangle {
                rect: Rect { x: -30, y: 75, width: 53, height: 10 },
                color: Color::green(),
            },
            DrawCommand::RectangleLines {
                rect: Rect { x: -30, y: 75, width: 80, height: 10 },
                line_width: 1,
                color: Color::white(),
            },
        ]
    );
}

#[test]
fn bar_with_zero_maximum_has_no_fill() {
    let mut w = World::new();
    let e = w.new_entity();
    w.attach_base(e, base_at(0, 0, 10, 10));
    w.attach_health(e, Health::new(0));
    let cmds = Health::draw_system(&w).unwrap();
    assert_eq!(
        cmds[0],
        DrawCommand::FilledRectangle {
            rect: Rect { x: -35, y: -25, width: 0, height: 10 },
            color: Color::green(),
        }
    );
}

#[test]
fn base_draw_outlines_and_marks_anchors() {
    let mut w = World::new();
    let e1 = w.new_entity();
    let e2 = w.new_entity();
    w.attach_base(e1, base_at(0, 0, 100, 50));
    let mut second = base_at(400, 380, 76, 48);
    second.tint = Color::yellow();
    w.attach_base(e2, second);
    let cmds = Base2D::draw_system(&w);
    assert_eq!(cmds.len(), 20);
    assert_eq!(
        cmds[0],
        DrawCommand::RectangleLines {
            rect: Rect { x: 0, y: 0, width: 100, height: 50 },
            line_width: 1,
            color: Color::white(),
        }
    );
    assert_eq!(
        cmds[2],
        DrawCommand::Circle { center: Vector2::new(50, 0), radius: 2, color: Color::red() }
    );
    assert_eq!(
        cmds[9],
        DrawCommand::Circle { center: Vector2::new(100, 50), radius: 2, color: Color::red() }
    );
    assert_eq!(
        cmds[10],
        DrawCommand::RectangleLines {
            rect: Rect { x: 400, y: 380, width: 76, height: 48 },
            line_width: 1,
            color: Color::new(253, 249, 0, 255),
        }
    );
    assert_eq!(
        cmds[15],
        DrawCommand::Circle { center: Vector2::new(438, 404), radius: 2, color: Color::red() }
    );
}

#[test]
fn empty_world_draws_nothing() {
    let w = World::new();
    assert_eq!(Base2D::draw_system(&w), vec![]);
    assert_eq!(Health::draw_system(&w), Ok(vec![]));
}

#[test]
fn new_base_defaults() {
    let b = base_at(100, 280, 36, 48);
    assert_eq!(b.name, "Unnamed");
    assert!(b.visible);
    assert_eq!(b.tint, Color::new(255, 255, 255, 255));
    assert_eq!(b.bounds, BoundingBox2D::new(100, 280, 36, 48));
}

#[test]
fn named_colors() {
    assert_eq!(Color::red(), Color { r: 230, g: 41, b: 55, a: 255 });
    assert_eq!(Color::green(), Color { r: 0, g: 228, b: 48, a: 255 });
    assert_eq!(Color::black(), Color { r: 0, g: 0, b: 0, a: 255 });
}

#[test]
fn end_to_end_player_health_bar() {
    let mut w = World::new();
    let e1 = w.new_entity();
    assert_eq!(e1, 1);
    let base = Base2D::new(Vector2::new(100, 280), Vector2::new(36, 48));
    let mut health = Health::new(20);
    health.take_damage(5);
    assert_eq!(health.health(), 15);
    health.take_damage(20);
    assert_eq!(health.health(), 0);
    let top = base.bounds.calc(Anchor::TopCenter);
    assert_eq!(top, Vector2::new(118, 280));
    w.attach_base(e1, base);
    w.attach_health(e1, health);
    let cmds = Health::draw_system(&w).unwrap();
    let outlines: Vec<&DrawCommand> =
        cmds.iter().filter(|c| matches!(c, DrawCommand::RectangleLines { .. })).collect();
    assert_eq!(outlines.len(), 1);
    assert_eq!(
        *outlines[0],
        DrawCommand::RectangleLines {
            rect: Rect { x: 118 - 40, y: 280 - 20 - 5, width: 80, height: 10 },
            line_width: 1,
            color: Color::white(),
        }
    );
    assert_eq!(
        cmds[0],
        DrawCommand::FilledRectangle {
            rect: Rect { x: 78, y: 255, width: 0, height: 10 },
            color: Color::green(),
        }
    );
}
