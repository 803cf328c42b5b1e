use canvas_layout::canvas::{Canvas, Gid, LayoutError};
use canvas_layout::geometry::Rectangle;
use canvas_layout::registry::{CanvasRegistry, MAX_CANVASES};

fn canvas(n: u32, trust: u8) -> Canvas {
    Canvas::new(Gid::new([n, 0, 0, 0]), Rectangle::new_coords(0, 0, 10, 10), trust).unwrap()
}

fn filled() -> CanvasRegistry {
    let mut reg = CanvasRegistry::new();
    for n in 0..MAX_CANVASES as u32 {
        assert_eq!(reg.insert(Gid::new([n, 0, 0, 0]), canvas(n, n as u8)), Ok(None));
    }
    reg
}

#[test]
fn new_registry_holds_nothing() {
    let reg = CanvasRegistry::new();
    assert_eq!(reg.len(), 0);
    assert!(!reg.contains(&Gid::new([0, 0, 0, 0])));
    assert_eq!(reg.get(&Gid::new([0, 0, 0, 0])), Err(LayoutError::NotFound));
}

#[test]
fn capacity_is_thirty_two() {
    assert_eq!(MAX_CANVASES, 32);
}

#[test]
fn insert_then_get() {
    let mut reg = CanvasRegistry::new();
    let id = Gid::new([1, 0, 0, 0]);
    assert_eq!(reg.insert(id, canvas(1, 50)), Ok(None));
    assert_eq!(reg.len(), 1);
    assert!(reg.contains(&id));
    assert_eq!(reg.get(&id), Ok(&canvas(1, 50)));
    assert!(!reg.contains(&Gid::new([1, 0, 0, 1])));
}

#[test]
fn insert_under_a_known_identifier_replaces() {
    let mut reg = CanvasRegistry::new();
    let id = Gid::new([1, 0, 0, 0]);
    reg.insert(id, canvas(1, 50)).unwrap();
    assert_eq!(reg.insert(id, canvas(1, 60)), Ok(Some(canvas(1, 50))));
    assert_eq!(reg.len(), 1);
    assert_eq!(reg.get(&id).unwrap().trust_level(), 60);
}

#[test]
fn insert_beyond_capacity_fails_and_changes_nothing() {
    let mut reg = filled();
    assert_eq!(reg.len(), MAX_CANVASES);
    let extra = Gid::new([1000, 0, 0, 0]);
    assert_eq!(reg.insert(extra, canvas(1000, 1)), Err(LayoutError::CapacityExceeded));
    assert_eq!(reg.insert(extra, canvas(1000, 1)), Err(LayoutError::CapacityExceeded));
    assert_eq!(reg.len(), MAX_CANVASES);
    assert!(!reg.contains(&extra));
    for n in 0..MAX_CANVASES as u32 {
        assert_eq!(reg.get(&Gid::new([n, 0, 0, 0])), Ok(&canvas(n, n as u8)));
    }
}

#[test]
fn full_registry_still_replaces() {
    let mut reg = filled();
    let id = Gid::new([5, 0, 0, 0]);
    assert_eq!(reg.insert(id, canvas(5, 99)), Ok(Some(canvas(5, 5))));
    assert_eq!(reg.len(), MAX_CANVASES);
    assert_eq!(reg.get(&id).unwrap().trust_level(), 99);
}

#[test]
fn get_mut_changes_in_place() {
    let mut reg = CanvasRegistry::new();
    let a = Gid::new([1, 0, 0, 0]);
    let b = Gid::new([2, 0, 0, 0]);
    reg.insert(a, canvas(1, 10)).unwrap();
    reg.insert(b, canvas(2, 20)).unwrap();
    reg.get_mut(&a).unwrap().set_clip(Rectangle::new_coords(1, 1, 2, 2));
    assert_eq!(reg.get(&a).unwrap().clip_rect(), Rectangle::new_coords(1, 1, 2, 2));
    assert_eq!(reg.get(&a).unwrap().rect(), Rectangle::new_coords(0, 0, 10, 10));
    assert_eq!(reg.get(&b), Ok(&canvas(2, 20)));
    assert_eq!(reg.len(), 2);
}

#[test]
fn get_mut_of_an_unknown_identifier_is_not_found() {
    let mut reg = CanvasRegistry::new();
    reg.insert(Gid::new([1, 0, 0, 0]), canvas(1, 10)).unwrap();
    assert_eq!(reg.get_mut(&Gid::new([3, 0, 0, 0])).err(), Some(LayoutError::NotFound));
    assert_eq!(reg.len(), 1);
}

#[test]
fn identifiers_differ_in_any_word() {
    let mut reg = CanvasRegistry::new();
    reg.insert(Gid::new([1, 2, 3, 4]), canvas(1, 1)).unwrap();
    assert!(!reg.contains(&Gid::new([1, 2, 3, 5])));
    assert!(!reg.contains(&Gid::new([4, 3, 2, 1])));
    assert!(reg.contains(&Gid::new([1, 2, 3, 4])));
}
