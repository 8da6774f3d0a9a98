use grid_node::layout::{descriptor_path, End, Link, Remote, MAX_BASE};
use grid_node::Side;

const ENDS: [End; 4] = [End::OutputRead, End::OutputWrite, End::InputRead, End::InputWrite];

#[test]
fn ends_lie_in_the_order_in_which_they_are_opened() {
    assert_eq!(End::OutputRead.position(), 0);
    assert_eq!(End::OutputWrite.position(), 1);
    assert_eq!(End::InputRead.position(), 2);
    assert_eq!(End::InputWrite.position(), 3);
}

#[test]
fn ends_are_listed_in_their_order() {
    assert_eq!(End::in_order(), ENDS);
    for (place, end) in End::in_order().iter().enumerate() {
        assert_eq!(end.position() as usize, place);
    }
}

#[test]
fn only_the_writing_ends_are_writable() {
    assert!(!End::OutputRead.writable());
    assert!(End::OutputWrite.writable());
    assert!(!End::InputRead.writable());
    assert!(End::InputWrite.writable());
}

#[test]
fn mirrored_swaps_the_inbound_and_the_outbound_pipe() {
    assert_eq!(End::OutputRead.mirrored(), End::InputRead);
    assert_eq!(End::OutputWrite.mirrored(), End::InputWrite);
    assert_eq!(End::InputRead.mirrored(), End::OutputRead);
    assert_eq!(End::InputWrite.mirrored(), End::OutputWrite);
    for end in ENDS {
        assert_eq!(end.mirrored().mirrored(), end);
        assert_eq!(end.mirrored().writable(), end.writable());
    }
}

#[test]
fn blocks_follow_each_other_from_the_base() {
    let expected = [(Side::Left, 3), (Side::Right, 7), (Side::Up, 11), (Side::Down, 15)];
    for (side, base) in expected {
        let link = Link::new(side, None, 3);
        assert_eq!(link.side(), side);
        assert!(!link.attaches());
        assert_eq!(link.descriptor(End::OutputRead), base);
        assert_eq!(link.descriptor(End::OutputWrite), base + 1);
        assert_eq!(link.descriptor(End::InputRead), base + 2);
        assert_eq!(link.descriptor(End::InputWrite), base + 3);
        assert_eq!(link.input_fd(), base + 2);
        for end in ENDS {
            assert_eq!(link.source(end), None);
        }
    }
}

#[test]
fn an_attached_link_opens_the_block_of_the_opposite_side() {
    let link = Link::new(Side::Left, Some(1234), 3);
    assert!(link.attaches());
    assert_eq!(link.descriptor(End::OutputRead), 3);
    assert_eq!(link.source(End::OutputRead), Some(Remote { pid: 1234, fd: 9, writable: false }));
    assert_eq!(link.source(End::OutputWrite), Some(Remote { pid: 1234, fd: 10, writable: true }));
    assert_eq!(link.source(End::InputRead), Some(Remote { pid: 1234, fd: 7, writable: false }));
    assert_eq!(link.source(End::InputWrite), Some(Remote { pid: 1234, fd: 8, writable: true }));

    let link = Link::new(Side::Down, Some(77), 3);
    assert_eq!(link.descriptor(End::OutputRead), 15);
    assert_eq!(link.source(End::OutputRead), Some(Remote { pid: 77, fd: 13, writable: false }));
    assert_eq!(link.source(End::OutputWrite), Some(Remote { pid: 77, fd: 14, writable: true }));
    assert_eq!(link.source(End::InputRead), Some(Remote { pid: 77, fd: 11, writable: false }));
    assert_eq!(link.source(End::InputWrite), Some(Remote { pid: 77, fd: 12, writable: true }));
}

#[test]
fn what_one_node_sends_on_the_other_receives_on() {
    for side in [Side::Left, Side::Right, Side::Up, Side::Down] {
        for base in [0, 3, 100] {
            let maker = Link::new(side, None, base);
            let joiner = Link::new(side.opposite(), Some(500), base);
            for end in ENDS {
                let remote = joiner.source(end).unwrap();
                assert_eq!(remote.pid, 500);
                assert_eq!(remote.fd, maker.descriptor(end.mirrored()));
                assert_eq!(remote.writable, end.writable());
            }
        }
    }
}

#[test]
fn matches_takes_the_block_and_nothing_else() {
    let link = Link::new(Side::Right, None, 3);
    assert!(link.matches([7, 8, 9, 10]));
    assert!(!link.matches([3, 4, 5, 6]));
    assert!(!link.matches([7, 8, 9, 11]));
    assert!(!link.matches([8, 7, 9, 10]));
    assert!(!link.matches([6, 8, 9, 10]));
    assert!(!link.matches([7, 8, 10, 10]));
}

#[test]
fn the_largest_base_still_fits() {
    let link = Link::new(Side::Down, Some(1), MAX_BASE);
    assert_eq!(link.descriptor(End::InputWrite), i32::MAX);
    let link = Link::new(Side::Up, Some(1), MAX_BASE);
    assert_eq!(link.source(End::OutputWrite).unwrap().fd, i32::MAX);
}

#[test]
fn a_negative_base_is_placed_all_the_same() {
    let link = Link::new(Side::Left, None, -8);
    assert_eq!(link.descriptor(End::OutputRead), -8);
    assert!(link.matches([-8, -7, -6, -5]));
}

#[test]
fn descriptor_paths_lead_into_proc() {
    assert_eq!(descriptor_path(1234, 9), b"/proc/1234/fd/9".to_vec());
    assert_eq!(descriptor_path(1, 0), b"/proc/1/fd/0".to_vec());
    assert_eq!(descriptor_path(-5, 12), b"/proc/-5/fd/12".to_vec());
    assert_eq!(
        descriptor_path(i32::MAX, i32::MAX),
        b"/proc/2147483647/fd/2147483647".to_vec()
    );
}
