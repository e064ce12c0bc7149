use ptr_cell::{PtrCell, Semantics};

/// A naive linked-list node: each node owns the cell holding the next one.
struct Node {
    pub value: String,
    pub next: PtrCell<Node>,
}

#[test]
fn round_trip_present() {
    let leaked = PtrCell::heap_leak(Some(1155u16));
    assert_eq!(PtrCell::heap_reclaim(leaked), Some(1155u16));
}

#[test]
fn round_trip_absent() {
    let leaked = PtrCell::<u16>::heap_leak(None);
    assert!(leaked.is_null());
    assert_eq!(PtrCell::heap_reclaim(leaked), None);
}

#[test]
fn replace_chain() {
    let mut cell: PtrCell<char> = PtrCell::new(None);

    assert_eq!(cell.replace(Some('A'), Semantics::Coupled), None);
    assert_eq!(cell.replace(Some('B'), Semantics::Coupled), Some('A'));
    assert_eq!(cell.replace(None, Semantics::Coupled), Some('B'));
    assert!(cell.is_empty(Semantics::Coupled));
}

#[test]
fn take_set_no_loss_no_duplication() {
    let mut cell: PtrCell<u32> = PtrCell::new(Some(0));
    let mut extracted: Vec<u32> = Vec::new();

    for next in 1..=5u32 {
        if let Some(value) = cell.take(Semantics::Coupled) {
            extracted.push(value);
        }
        cell.set(Some(next), Semantics::Coupled);
    }
    if let Some(value) = cell.take(Semantics::Coupled) {
        extracted.push(value);
    }

    extracted.sort_unstable();
    assert_eq!(extracted, vec![0, 1, 2, 3, 4, 5]);
    assert!(cell.is_empty(Semantics::Coupled));
}

#[test]
fn swap_exchanges_contents() {
    let mut one: PtrCell<u8> = PtrCell::new(Some(1));
    let mut two: PtrCell<u8> = PtrCell::new(Some(2));

    one.swap(&mut two, Semantics::Coupled);

    assert_eq!(one.take(Semantics::Coupled), Some(2));
    assert_eq!(two.take(Semantics::Coupled), Some(1));
}

#[test]
fn stack_push_pop_order() {
    let mut cell: PtrCell<Node> = PtrCell::new(None);

    for word in ["Hello", "World"] {
        let value = String::from(word);
        cell.map_owner(|next| Node { value, next }, Semantics::Coupled);
    }

    let top = cell
        .take(Semantics::Coupled)
        .expect("two values were pushed onto the cell");
    assert_eq!(top.value, "World");

    let mut below = top.next;
    let bottom = below
        .take(Semantics::Coupled)
        .expect("one value should remain below the top");
    assert_eq!(bottom.value, "Hello");

    let mut rest = bottom.next;
    assert!(rest.take(Semantics::Coupled).is_none());
}

fn maximize_in(sequence: &[u8], buffer: &mut PtrCell<u8>) {
    for &item in sequence {
        let mut slot = Some(item);

        loop {
            let previous = buffer.replace(slot, Semantics::Relaxed);

            if slot < previous {
                slot = previous;
            } else {
                break;
            }
        }
    }
}

#[test]
fn maximum_convergence() {
    const VALUES: [u8; 11] = [47, 12, 88, 45, 67, 34, 78, 90, 11, 77, 33];

    let mut maximum: PtrCell<u8> = PtrCell::new(None);
    let (left, right) = VALUES.split_at(VALUES.len() / 2);

    // Alternate between the two halves, as an interleaving of two workers
    // each feeding its half through the replace-and-correct loop.
    let longer = left.len().max(right.len());
    for index in 0..longer {
        if index < left.len() {
            maximize_in(&left[index..=index], &mut maximum);
        }
        if index < right.len() {
            maximize_in(&right[index..=index], &mut maximum);
        }
    }

    assert_eq!(maximum.take(Semantics::Relaxed), Some(90));
}

#[test]
fn from_value_preloads_the_cell() {
    let mut cell: PtrCell<u16> = 0x81D.into();

    assert_eq!(cell.replace(Some(2047), Semantics::Coupled), Some(0x81D));
    assert!(!cell.is_empty(Semantics::Coupled));
    assert_eq!(cell.take(Semantics::Coupled), Some(2047));
}

#[test]
fn take_from_empty_is_none() {
    let mut cell: PtrCell<u8> = PtrCell::new(None);
    assert_eq!(cell.take(Semantics::Coupled), None);
    assert_eq!(cell.take(Semantics::Coupled), None);
}

#[test]
fn take_extracts_exactly_once() {
    let mut cell: PtrCell<u8> = PtrCell::new(Some(45));
    assert_eq!(cell.take(Semantics::Coupled), Some(45));
    assert_eq!(cell.take(Semantics::Coupled), None);
}

#[test]
fn set_discards_previous() {
    let mut cell: PtrCell<u16> = PtrCell::new(None);
    cell.set(Some(1776), Semantics::Coupled);
    cell.set(Some(1812), Semantics::Coupled);
    assert_eq!(cell.take(Semantics::Coupled), Some(1812));
}

#[test]
fn default_cell_is_empty() {
    let mut cell: PtrCell<u8> = PtrCell::default();
    assert!(cell.is_empty(Semantics::Coupled));
    assert_eq!(cell.take(Semantics::Coupled), None);
}

#[test]
fn pointer_ops_round_trip() {
    let leaked = PtrCell::heap_leak(Some(45u8));
    let mut cell = PtrCell::from_ptr(leaked);
    assert!(!cell.is_empty(Semantics::Coupled));

    let out = cell.take_ptr(Semantics::Coupled);
    assert!(!out.is_null());
    assert_eq!(PtrCell::heap_reclaim(out), Some(45u8));

    let empty = cell.take_ptr(Semantics::Coupled);
    assert!(empty.is_null());
}

#[test]
fn replace_ptr_hands_back_previous_handle() {
    let a = PtrCell::heap_leak(Some('a'));
    let b = PtrCell::heap_leak(Some('b'));

    let mut cell = PtrCell::from_ptr(a);
    let displaced = cell.replace_ptr(b, Semantics::Coupled);

    assert_eq!(PtrCell::heap_reclaim(displaced), Some('a'));
    assert_eq!(cell.take(Semantics::Coupled), Some('b'));
}

#[test]
fn set_ptr_discards_previous() {
    let mut cell = PtrCell::new(Some(1u8));
    let two = PtrCell::heap_leak(Some(2u8));
    cell.set_ptr(two, Semantics::Coupled);
    assert_eq!(cell.take(Semantics::Coupled), Some(2u8));
}

#[test]
fn get_ptr_observes_without_taking() {
    let mut cell = PtrCell::new(Some(3u8));
    assert!(!cell.get_ptr(Semantics::Coupled).is_null());
    assert_eq!(cell.take(Semantics::Coupled), Some(3u8));
    assert!(cell.get_ptr(Semantics::Coupled).is_null());
}

#[test]
fn get_mut_edits_in_place() {
    let mut text: PtrCell<String> = PtrCell::new(Some(String::from("Point")));
    text.get_mut()
        .expect("the cell should contain a value")
        .push_str("er");

    assert_eq!(text.take(Semantics::Coupled), Some(String::from("Pointer")));
}

#[test]
fn get_mut_on_empty_is_none() {
    let mut cell: PtrCell<u8> = PtrCell::new(None);
    assert!(cell.get_mut().is_none());
}

#[test]
fn map_owner_builder_sees_prior_content() {
    let mut cell: PtrCell<u8> = PtrCell::new(Some(3));

    cell.map_owner(
        |mut inner: PtrCell<u8>| inner.take(Semantics::Relaxed).unwrap_or(0) + 10,
        Semantics::Coupled,
    );

    assert_eq!(cell.take(Semantics::Coupled), Some(13));
}
