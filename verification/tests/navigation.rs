use gut::screen::ScreenManager;

#[test]
fn paging_saturates_and_stays_in_bounds() {
    let mut mgr: ScreenManager<u32> = ScreenManager::new(3);
    assert_eq!(mgr.active_screen_index(), 0);
    mgr.prev_screen();
    assert_eq!(mgr.active_screen_index(), 0);
    for _ in 0..10 {
        mgr.next_screen();
        assert!(mgr.active_screen_index() < 3);
    }
    assert_eq!(mgr.active_screen_index(), 2);
    for _ in 0..10 {
        mgr.prev_screen();
        assert!(mgr.active_screen_index() < 3);
    }
    assert_eq!(mgr.active_screen_index(), 0);
}

#[test]
fn mixed_paging_never_leaves_the_range() {
    let mut mgr: ScreenManager<u8> = ScreenManager::new(2);
    let steps = [true, true, false, true, false, false, false, true, true, true];
    for forward in steps {
        if forward {
            mgr.next_screen();
        } else {
            mgr.prev_screen();
        }
        assert!(mgr.active_screen_index() < 2);
    }
}

#[test]
fn push_pop_and_clear() {
    let mut mgr: ScreenManager<&'static str> = ScreenManager::new(2);
    mgr.push_layer(0, "bottom");
    mgr.push_layer(0, "top");
    assert_eq!(mgr.layer_count(0), 2);
    assert_eq!(mgr.top_layer(0), Some(&"top"));
    assert!(!mgr.pop_top_layer(0));
    assert_eq!(mgr.top_layer(0), Some(&"bottom"));
    assert!(mgr.pop_top_layer(0));
    assert!(mgr.top_layer(0).is_none());
    assert!(mgr.pop_top_layer(0));
    mgr.push_layer(1, "a");
    mgr.push_layer(1, "b");
    mgr.clear_layers(1);
    assert_eq!(mgr.layer_count(1), 0);
}

#[test]
fn set_active_screen_and_saturation_at_the_end() {
    let mut mgr: ScreenManager<u8> = ScreenManager::new(4);
    assert_eq!(mgr.count(), 4);
    mgr.set_active_screen(2);
    assert_eq!(mgr.active_screen_index(), 2);
    mgr.next_screen();
    assert_eq!(mgr.active_screen_index(), 3);
    mgr.next_screen();
    assert_eq!(mgr.active_screen_index(), 3);
}

#[test]
fn pushes_land_on_the_named_screen_only() {
    let mut mgr: ScreenManager<u32> = ScreenManager::new(2);
    mgr.push_layer(1, 7);
    assert_eq!(mgr.layer_count(0), 0);
    assert_eq!(mgr.layer_count(1), 1);
    assert_eq!(mgr.top_layer(1), Some(&7));
}
