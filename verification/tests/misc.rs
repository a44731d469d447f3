use win_log::counter::{Counter, Message};
use win_log::shared_map::generate_malware_ip_list;

#[test]
fn counter_counts() {
    let mut c = Counter::new();
    assert_eq!(c.value, 0);
    c.update(Message::IncrementPressed);
    c.update(Message::IncrementPressed);
    c.update(Message::DecrementPressed);
    assert_eq!(c.value, 1);
    assert_eq!(c.title(), "Counter - Iced");
}

#[test]
fn malware_list_holds_the_first_addresses() {
    let s = generate_malware_ip_list(1_000);
    assert_eq!(s.len(), 1_000);
    assert!(s.contains(&0) && s.contains(&999) && !s.contains(&1_000));
    assert!(generate_malware_ip_list(0).is_empty());
}
