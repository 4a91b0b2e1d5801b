use mnn::callsite::{CallsiteCache, Level};

#[test]
fn one_callsite_per_key() {
    let mut cache = CallsiteCache::new();
    assert_eq!(cache.len(), 0);
    let a = cache.callsite_for(Level::Info, Some(12), Some("Interpreter.cpp"));
    let b = cache.callsite_for(Level::Error, Some(12), Some("Interpreter.cpp"));
    let c = cache.callsite_for(Level::Info, Some(13), Some("Interpreter.cpp"));
    let d = cache.callsite_for(Level::Info, Some(12), None);
    assert_eq!((a, b, c, d), (0, 1, 2, 3));
    assert_eq!(cache.len(), 4);
    let file = String::from("Interpreter.cpp");
    let same: &'static str = Box::leak(file.into_boxed_str());
    assert_eq!(cache.callsite_for(Level::Info, Some(12), Some(same)), 0);
    assert_eq!(cache.callsite_for(Level::Error, Some(12), Some("Interpreter.cpp")), 1);
    assert_eq!(cache.callsite_for(Level::Info, Some(12), None), 3);
    assert_eq!(cache.len(), 4);
    assert_eq!(cache.callsite_for(Level::Error, None, None), 4);
    assert_eq!(cache.len(), 5);
}
