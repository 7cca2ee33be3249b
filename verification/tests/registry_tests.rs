use mcmmtk::document::parse_document;
use mcmmtk::registry::AddResult;
use mcmmtk::registry::Registry;
use mcmmtk::registry::Rejection;
use mcmmtk::registry::RemoveResult;
use mcmmtk::series::SeriesIdentity;
use mcmmtk::series::create_ideal_model_paint_series;

fn small_series(manufacturer: &str, series_name: &str) -> String {
    format!(
        "Manufacturer: {}\nSeries: {}\nModelPaint(name=\"Red\", rgb=RGB16(red=0xFFFF, green=0x0, blue=0x0), transparency=\"O\", finish=\"G\", metallic=\"NM\", fluorescence=\"NF\", notes=\"\")",
        manufacturer, series_name
    )
}

#[test]
fn it_works() {
}

#[test]
fn add_series_rejects_duplicate_identity() {
    let mut registry = Registry::new();
    let series = parse_document(&small_series("M", "S")).unwrap();
    assert_eq!(registry.add_series(series.clone()), AddResult::Accepted);
    assert_eq!(registry.series_count(), 1);
    assert_eq!(registry.add_series(series), AddResult::Rejected(Rejection::Duplicate));
    assert_eq!(registry.series_count(), 1);
}

#[test]
fn add_series_same_name_other_manufacturer() {
    let mut registry = Registry::new();
    let a = parse_document(&small_series("M", "S")).unwrap();
    let b = parse_document(&small_series("N", "S")).unwrap();
    assert_eq!(registry.add_series(a), AddResult::Accepted);
    assert_eq!(registry.add_series(b), AddResult::Accepted);
    assert_eq!(registry.series_count(), 2);
}

#[test]
fn remove_series_not_found_and_removed() {
    let mut registry = Registry::new();
    let never_added = SeriesIdentity {
        manufacturer: "Nobody".to_string(),
        series_name: "Nothing".to_string(),
    };
    assert_eq!(registry.remove_series(&never_added), RemoveResult::NotFound);
    let series = parse_document(&small_series("M", "S")).unwrap();
    let id = series.identity().clone();
    assert_eq!(registry.add_series(series), AddResult::Accepted);
    assert!(registry.contains_series(&id));
    assert_eq!(registry.remove_series(&id), RemoveResult::Removed);
    assert!(!registry.contains_series(&id));
    assert!(registry.get_series(&id).is_none());
    assert_eq!(registry.remove_series(&id), RemoveResult::NotFound);
}

#[test]
fn load_documents_best_effort() {
    let mut registry = Registry::new();
    let texts: Vec<Option<String>> = vec![
        Some(small_series("M1", "S1")),
        Some("this is not a series document".to_string()),
        Some(small_series("M2", "S2")),
    ];
    let warnings = registry.load_documents(&texts);
    assert_eq!(registry.series_count(), 2);
    assert_eq!(warnings, vec![1]);
}

#[test]
fn load_documents_unreadable_counts_as_warning() {
    let mut registry = Registry::new();
    let texts: Vec<Option<String>> = vec![
        None,
        Some(small_series("M1", "S1")),
        Some(small_series("M1", "S1")),
    ];
    let warnings = registry.load_documents(&texts);
    assert_eq!(registry.series_count(), 1);
    assert_eq!(warnings, vec![0, 2]);
}

#[test]
fn choose_paint_notifies_subscribers_in_order() {
    let mut registry = Registry::new();
    let first = registry.subscribe();
    let second = registry.subscribe();
    assert_eq!(first, 0);
    assert_eq!(second, 1);
    let series = create_ideal_model_paint_series();
    let paint = series.get_paint("Red").unwrap();
    let notifications = registry.choose_paint(paint);
    assert_eq!(notifications.len(), 2);
    assert_eq!(notifications[0].subscriber, first);
    assert_eq!(notifications[1].subscriber, second);
    // both callbacks receive the identical record
    let mut seen: Vec<String> = Vec::new();
    for n in notifications.iter() {
        assert_eq!(n.paint.name, paint.name);
        assert_eq!(n.paint.rgb, paint.rgb);
        assert_eq!(n.paint.characteristics, paint.characteristics);
        seen.push(format!("{}:{}", n.subscriber, n.paint.name));
    }
    assert_eq!(seen, vec!["0:Red".to_string(), "1:Red".to_string()]);
}

#[test]
fn choose_paint_without_subscribers() {
    let registry = Registry::new();
    let series = create_ideal_model_paint_series();
    let paint = series.get_paint("Blue").unwrap();
    assert!(registry.choose_paint(paint).is_empty());
}
