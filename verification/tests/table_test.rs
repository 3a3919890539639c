use stellarconduit_contracts::address::Address;
use stellarconduit_contracts::table::{Key, Table};

#[test]
fn test_table_put_get_discard() {
    let mut table: Table<u64, u64> = Table::new();
    assert_eq!(table.len(), 0);
    assert_eq!(table.get(&1), None);
    table.put(1, 10);
    table.put(2, 20);
    table.put(3, 30);
    assert_eq!(table.len(), 3);
    assert_eq!(table.get(&2), Some(&20));
    table.put(2, 21);
    assert_eq!(table.len(), 3);
    assert_eq!(table.get(&2), Some(&21));
    assert_eq!(table.get(&1), Some(&10));
    table.discard(&1);
    assert_eq!(table.len(), 2);
    assert_eq!(table.get(&1), None);
    assert_eq!(table.get(&2), Some(&21));
    assert_eq!(table.get(&3), Some(&30));
    table.discard(&9);
    assert_eq!(table.len(), 2);
}

#[test]
fn test_table_slots() {
    let mut table: Table<u64, u64> = Table::new();
    table.put(4, 40);
    table.put(5, 50);
    let mut seen = vec![];
    for position in 0..table.len() {
        seen.push((*table.key_of(position), *table.value_at(position)));
    }
    seen.sort();
    assert_eq!(seen, vec![(4, 40), (5, 50)]);
}

#[test]
fn test_address_identity() {
    let a = Address::new("GABC".to_string());
    assert!(a.same(&Address::new("GABC".to_string())));
    assert!(!a.same(&Address::new("GABD".to_string())));
    assert!(!a.same(&Address::new("GAB".to_string())));
    assert!(Key::same(&a, &a.clone()));
    assert!(Key::same(&7u64, &7u64));
    assert!(!Key::same(&7u64, &8u64));
    assert_eq!(a.clone(), a);
}
