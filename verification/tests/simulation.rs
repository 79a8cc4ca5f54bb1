use shopdrop::models::{describe_product, Product, ReviewStatus};
use shopdrop::simulation::{
    decimal_text, simulation_tick, sku_for, spawn_from_template, template_name, template_product, fluctuate_product, draw_listing,
    pending_named,
    Simulation, TickOutcome, TEMPLATE_COUNT,
};
use shopdrop::store::ProductStore;
use shopdrop::websocket::{react_to_frame, relay_step, ChannelEvent, ClientFrame, RelayAction, SessionAction};

fn approved(id: &str, inventory: u32) -> Product {
    describe_product(id, "Thing", 0, inventory, "B", "M", "C", "W", "N", ReviewStatus::Approved)
}

#[test]
fn decimal_and_skus() {
    assert_eq!(decimal_text(0), "0");
    assert_eq!(decimal_text(7), "7");
    assert_eq!(decimal_text(10), "10");
    assert_eq!(decimal_text(300), "300");
    assert_eq!(decimal_text(u32::MAX), "4294967295");
    assert_eq!(sku_for(300), "sku-300");
    assert_eq!(sku_for(i32::MAX), "sku-2147483647");
}

#[test]
fn templates() {
    assert_eq!(TEMPLATE_COUNT, 3);
    let p = template_product(0, "sku-1");
    assert_eq!(p.name, "Outlet Power Bank");
    assert_eq!(p.brand, "ChargeCo");
    assert_eq!(f64::from_bits(p.price_bits), 29.99);
    assert_eq!(p.inventory, 6);
    assert_eq!(p.status, ReviewStatus::Review);
    let p = template_product(1, "sku-2");
    assert_eq!(p.name, "Outlet Bluetooth Speaker");
    assert_eq!(f64::from_bits(p.price_bits), 49.99);
    assert_eq!(p.warranty.as_deref(), Some("90-day"));
    let p = template_product(2, "sku-3");
    assert_eq!(p.name, template_name(2));
    assert_eq!(p.condition, "Like New");
    assert_eq!(f64::from_bits(p.price_bits), 24.99);
    assert_eq!(p.inventory, 8);
    assert_eq!(p.review_notes.as_deref(), Some("Needs final review."));
}

#[test]
fn spawn_lists_under_next_sku() {
    let mut sim = Simulation::new();
    let mut s = ProductStore::new();
    let p = spawn_from_template(&mut sim, &mut s, 1).unwrap();
    assert_eq!(p.id, "sku-300");
    assert_eq!(p.status, ReviewStatus::Review);
    assert_eq!(sim.next_sku_id(), 301);
    assert_eq!(s.get(&"sku-300".to_string()).unwrap().name, "Outlet Bluetooth Speaker");
    let q = spawn_from_template(&mut sim, &mut s, 0).unwrap();
    assert_eq!(q.id, "sku-301");
    assert_eq!(s.len(), 2);
}

#[test]
fn spawn_skips_duplicate_pending_template() {
    let mut sim = Simulation::new();
    let mut s = ProductStore::new();
    spawn_from_template(&mut sim, &mut s, 2).unwrap();
    assert!(spawn_from_template(&mut sim, &mut s, 2).is_none());
    assert_eq!(sim.next_sku_id(), 301);
    assert_eq!(s.len(), 1);
}

#[test]
fn spawn_after_approval_is_allowed() {
    let mut sim = Simulation::new();
    let mut s = ProductStore::new();
    let mut p = spawn_from_template(&mut sim, &mut s, 2).unwrap();
    p.status = ReviewStatus::Approved;
    s.upsert(p);
    assert!(spawn_from_template(&mut sim, &mut s, 2).is_some());
}

#[test]
fn fluctuation_of_one_product() {
    assert_eq!(fluctuate_product(approved("a", 5), true, 2, false, 3).inventory, 3);
    assert_eq!(fluctuate_product(approved("a", 1), true, 2, false, 0).inventory, 0);
    assert_eq!(fluctuate_product(approved("a", 0), true, 2, false, 0).inventory, 0);
    assert_eq!(fluctuate_product(approved("a", 5), false, 2, false, 1).inventory, 5);
    assert_eq!(fluctuate_product(approved("a", 5), true, 0, false, 0).inventory, 5);
    assert_eq!(fluctuate_product(approved("a", 5), true, 2, true, 3).inventory, 6);
    assert_eq!(fluctuate_product(approved("a", 0), true, 2, true, 1).inventory, 1);
    assert_eq!(fluctuate_product(approved("a", u32::MAX - 1), false, 0, true, 3).inventory, u32::MAX);
    let p = fluctuate_product(approved("a", 5), true, 1, true, 1);
    assert_eq!(p.name, "Thing");
    assert_eq!(p.status, ReviewStatus::Approved);
}

#[test]
fn drawn_listings_name_a_template() {
    for _ in 0..500 {
        if let Some(t) = draw_listing() {
            assert!(t < TEMPLATE_COUNT);
        }
    }
}

#[test]
fn ticks_fluctuate_only_public_products() {
    let mut sim = Simulation::new();
    let mut s = ProductStore::new();
    s.upsert(approved("a", 100));
    s.upsert(describe_product("b", "Hidden", 0, 50, "B", "M", "C", "W", "N", ReviewStatus::Draft));
    let mut rose = false;
    let mut fell = false;
    let mut moved_price = false;
    for _ in 0..400 {
        let before_a = s.get(&"a".to_string()).unwrap().inventory;
        let listing = draw_listing();
        match simulation_tick(&mut sim, &mut s, listing) {
            TickOutcome::DuplicatePending => {
                let t = listing.unwrap();
                assert!(pending_named(&s, template_name(t)));
            }
            TickOutcome::Completed { spawned, updates, price_steps } => {
                if let Some(p) = spawned {
                    assert_eq!(p.status, ReviewStatus::Review);
                    assert!(p.id.starts_with("sku-3"));
                }
                assert!(updates.iter().all(|p| p.status == ReviewStatus::Approved));
                assert_eq!(updates.len(), 1);
                assert_eq!(price_steps.len(), 1);
                assert!(price_steps[0] >= -100 && price_steps[0] <= 100);
                moved_price |= price_steps[0] != 0;
                assert_eq!(updates[0].id, "a");
            }
        }
        let after_a = s.get(&"a".to_string()).unwrap().inventory;
        assert!(after_a <= before_a + 3 && before_a <= after_a + 2);
        rose |= after_a > before_a;
        fell |= after_a < before_a;
        assert_eq!(s.get(&"b".to_string()).unwrap().inventory, 50);
    }
    assert!(rose && fell && moved_price);
    let pending = shopdrop::handlers::list_pending_products(&s);
    assert!(pending.len() <= 3);
}

#[test]
fn duplicate_listing_changes_nothing() {
    let mut sim = Simulation::new();
    let mut s = ProductStore::new();
    spawn_from_template(&mut sim, &mut s, 0).unwrap();
    s.upsert(approved("a", 7));
    match simulation_tick(&mut sim, &mut s, Some(0)) {
        TickOutcome::DuplicatePending => {}
        TickOutcome::Completed { .. } => panic!("a pending template abandons the tick"),
    }
    assert_eq!(s.len(), 2);
    assert_eq!(sim.next_sku_id(), 301);
    assert_eq!(s.get(&"a".to_string()).unwrap().inventory, 7);
}

#[test]
fn listing_skus_differ() {
    let skus: Vec<String> = (300..420).map(sku_for).collect();
    for (i, a) in skus.iter().enumerate() {
        for b in skus.iter().skip(i + 1) {
            assert_ne!(a, b);
        }
    }
    assert_ne!(sku_for(31), sku_for(301));
    assert_ne!(sku_for(1), sku_for(10));
}

#[test]
fn socket_reactions() {
    match react_to_frame(ClientFrame::Ping(vec![1, 2, 3])) {
        SessionAction::Pong(p) => assert_eq!(p, vec![1, 2, 3]),
        _ => panic!("ping must be answered"),
    }
    assert!(matches!(react_to_frame(ClientFrame::Close), SessionAction::Stop));
    assert!(matches!(react_to_frame(ClientFrame::Failed), SessionAction::Stop));
    assert!(matches!(react_to_frame(ClientFrame::Text), SessionAction::Ignore));
    assert!(matches!(react_to_frame(ClientFrame::Pong), SessionAction::Ignore));
    assert!(matches!(react_to_frame(ClientFrame::Binary), SessionAction::Ignore));
    assert!(matches!(react_to_frame(ClientFrame::Other), SessionAction::Ignore));
    match relay_step(ChannelEvent::Message("hi".to_string())) {
        RelayAction::Forward(m) => assert_eq!(m, "hi"),
        RelayAction::Stop => panic!("messages are forwarded"),
    }
    assert!(matches!(relay_step(ChannelEvent::Failed), RelayAction::Stop));
}
