use groove::buffer::{blocking_pull, Pulled, BUFFER_END, BUFFER_YES};
use groove::file::File;
use groove::playlist::{FillMode, Playlist, PlaylistItem};
use groove::pointer_reference_counter::PointerReferenceCounter;
use groove::sink::Attachment;

fn files(p: &Playlist) -> Vec<u64> {
    p.items().iter().map(|it| it.file()).collect()
}

#[test]
fn open_null_gives_no_file() {
    let mut rc = PointerReferenceCounter::new();
    assert!(File::open(0, &mut rc).is_none());
    assert_eq!(rc.count(0), 0);
}

#[test]
fn open_registers_one_owner() {
    let mut rc = PointerReferenceCounter::new();
    let f = File::open(100, &mut rc).unwrap();
    assert_eq!(f.id(), 100);
    assert_eq!(rc.count(100), 1);
    assert!(f.close(&mut rc));
    assert_eq!(rc.count(100), 0);
}

#[test]
fn append_keeps_order_and_counts() {
    let mut rc = PointerReferenceCounter::new();
    let a = File::open(10, &mut rc).unwrap();
    let b = File::open(20, &mut rc).unwrap();
    let c = File::open(30, &mut rc).unwrap();
    let mut p = Playlist::new();
    assert!(p.items().is_empty());
    p.append(a.id(), 1, &mut rc);
    p.append(b.id(), 2, &mut rc);
    p.append(c.id(), 3, &mut rc);
    p.append(a.id(), 4, &mut rc);
    assert_eq!(files(&p), vec![10, 20, 30, 10]);
    assert_eq!(p.items()[3], PlaylistItem { node: 4, file: 10 });
    assert_eq!(rc.count(10), 3);
    assert_eq!(rc.count(20), 2);
    assert_eq!(rc.count(30), 2);
}

#[test]
fn insert_goes_before_index() {
    let mut rc = PointerReferenceCounter::new();
    let a = File::open(10, &mut rc).unwrap();
    let b = File::open(20, &mut rc).unwrap();
    let c = File::open(30, &mut rc).unwrap();
    let mut p = Playlist::new();
    p.append(a.id(), 1, &mut rc);
    p.append(b.id(), 2, &mut rc);
    assert_eq!(p.node_before(1), 2);
    p.insert(c.id(), 3, 1, &mut rc);
    assert_eq!(files(&p), vec![10, 30, 20]);
    p.insert(b.id(), 4, 0, &mut rc);
    assert_eq!(files(&p), vec![20, 10, 30, 20]);
    assert_eq!(rc.count(20), 3);
    assert_eq!(rc.count(30), 2);
}

#[test]
fn clear_releases_each_occurrence() {
    let mut rc = PointerReferenceCounter::new();
    let a = File::open(10, &mut rc).unwrap();
    let b = File::open(20, &mut rc).unwrap();
    let mut p = Playlist::new();
    p.append(a.id(), 1, &mut rc);
    p.append(b.id(), 2, &mut rc);
    p.append(a.id(), 3, &mut rc);
    assert_eq!(rc.count(10), 3);
    let closed = p.clear(&mut rc);
    assert!(p.items().is_empty());
    assert_eq!(rc.count(10), 1);
    assert_eq!(rc.count(20), 1);
    assert!(closed.is_empty());
}

#[test]
fn clear_closes_files_nobody_else_holds() {
    let mut rc = PointerReferenceCounter::new();
    let a = File::open(10, &mut rc).unwrap();
    let mut p = Playlist::new();
    p.append(a.id(), 1, &mut rc);
    assert!(!a.close(&mut rc));
    assert_eq!(p.clear(&mut rc), vec![10]);
    assert_eq!(rc.count(10), 0);
}

#[test]
fn clear_of_empty_playlist() {
    let mut rc = PointerReferenceCounter::new();
    let mut p = Playlist::new();
    assert!(p.clear(&mut rc).is_empty());
    assert!(p.items().is_empty());
}

#[test]
fn clear_lists_each_closed_file_once() {
    let mut rc = PointerReferenceCounter::new();
    let a = File::open(10, &mut rc).unwrap();
    let b = File::open(20, &mut rc).unwrap();
    let c = File::open(30, &mut rc).unwrap();
    let mut p = Playlist::new();
    p.append(a.id(), 1, &mut rc);
    p.append(b.id(), 2, &mut rc);
    p.append(a.id(), 3, &mut rc);
    p.append(c.id(), 4, &mut rc);
    assert!(!a.close(&mut rc));
    assert!(!c.close(&mut rc));
    let mut closed = p.clear(&mut rc);
    closed.sort();
    assert_eq!(closed, vec![10, 30]);
    assert_eq!(rc.count(20), 1);
}

#[test]
fn fill_mode_codes() {
    assert_eq!(FillMode::EverySinkFull.to_groove(), 0);
    assert_eq!(FillMode::AnySinkFull.to_groove(), 1);
}

#[test]
fn play_one_file_to_the_end() {
    let mut rc = PointerReferenceCounter::new();
    let file = File::open(0xa1, &mut rc).unwrap();
    let mut playlist = Playlist::new();
    playlist.append(file.id(), 0x51, &mut rc);
    assert_eq!(rc.count(0xa1), 2);

    let mut sink = Attachment::new();
    assert_eq!(sink.attach(0x77, 0), Ok(()));
    assert_eq!(sink.playlist(), Some(0x77));
    let codes = [BUFFER_YES, BUFFER_YES, BUFFER_END];
    let mut pulled = 0;
    for code in codes {
        match blocking_pull(code) {
            Pulled::Buffer => pulled += 1,
            Pulled::End => break,
        }
    }
    assert_eq!(pulled, 2);
    assert!(sink.detach());

    assert!(!file.close(&mut rc));
    assert_eq!(playlist.clear(&mut rc), vec![0xa1]);
    assert_eq!(rc.count(0xa1), 0);
}

#[test]
fn shared_file_closes_with_last_playlist() {
    let mut rc = PointerReferenceCounter::new();
    let file = File::open(5, &mut rc).unwrap();
    let mut first = Playlist::new();
    let mut second = Playlist::new();
    first.append(file.id(), 1, &mut rc);
    second.append(file.id(), 2, &mut rc);
    assert!(!file.close(&mut rc));
    assert_eq!(rc.count(5), 2);

    assert!(first.clear(&mut rc).is_empty());
    assert_eq!(rc.count(5), 1);
    assert_eq!(second.items()[0].file(), 5);

    assert_eq!(second.clear(&mut rc), vec![5]);
    assert_eq!(rc.count(5), 0);
}
