use domo_pitchfork::batch::PartBatcher;
use domo_pitchfork::stream::StreamPartUpload;

#[test]
fn batches_reach_the_minimum_before_leaving() {
    let mut b: PartBatcher<u32> = PartBatcher::new(3);
    assert!(b.add_rows(vec![1, 2]).is_none());
    assert_eq!(b.pending_len(), 2);
    let part = b.add_rows(vec![3, 4]).expect("a part");
    assert_eq!(part.id, 1);
    assert_eq!(part.rows, vec![1, 2, 3, 4]);
    assert_eq!(b.pending_len(), 0);
    assert_eq!(b.next_part(), 2);
    b.record(part.id, part.rows.len(), true);
    assert!(b.add_row(5).is_none());
    let last = b.finish().expect("a last part");
    assert_eq!((last.id, last.rows), (2, vec![5]));
    b.record(2, 1, false);
    assert!(b.finish().is_none());
    assert_eq!(
        b.into_results(),
        vec![
            StreamPartUpload { data_part_id: 1, rows: 4, upload_successful: true },
            StreamPartUpload { data_part_id: 2, rows: 1, upload_successful: false },
        ]
    );
}

#[test]
fn single_rows_form_parts() {
    let mut b: PartBatcher<&str> = PartBatcher::new(2);
    assert!(b.add_row("a").is_none());
    let p = b.add_row("b").expect("a part");
    assert_eq!(p.rows, vec!["a", "b"]);
    assert!(b.results().is_empty());
    assert!(b.finish().is_none());
}

#[test]
fn zero_minimum_sends_every_batch() {
    let mut b: PartBatcher<u8> = PartBatcher::new(0);
    let p = b.add_rows(Vec::new()).expect("a part");
    assert_eq!(p.id, 1);
    assert!(p.rows.is_empty());
}
