use skin_trader::plotter::{PlotData, PlotError};

#[test]
fn series_must_pair_up() {
    let d = PlotData::new(vec![1u32, 2, 3], vec![10i64, 20, 30]).unwrap();
    assert_eq!(d.len(), 3);
    assert_eq!(d.x(), &vec![1, 2, 3]);
    assert_eq!(d.y(), &vec![10, 20, 30]);
    let e = PlotData::new(vec![1u32, 2], vec![1u32]).err();
    assert_eq!(e, Some(PlotError::LengthMismatch));
    assert_eq!(PlotError::LengthMismatch.message(), "Input vectors must have the same length");
    assert_eq!(PlotData::<u8, u8>::new(vec![], vec![]).unwrap().len(), 0);
}
