use safesip::{Amount, CallContext, Error, Identity, Product, ProductRegistry, SafeSip};

fn identity(tag: u8) -> Identity {
    Identity::from_bytes([tag; 20])
}

fn call(caller: Identity) -> CallContext {
    CallContext { caller, value: Amount::zero() }
}

fn system(owner: Identity) -> SafeSip {
    match SafeSip::initialize(&call(owner), Amount::from_u64(100)) {
        Ok(system) => system,
        Err(e) => panic!("initialization failed: {:?}", e),
    }
}

fn product(id: u64, name: &str, barcode: &str, is_fake: bool) -> Product {
    Product { id, name: name.to_string(), barcode: barcode.to_string(), is_fake }
}

#[test]
fn owner_appends_one_record_per_call_in_call_order() {
    let owner = identity(1);
    let mut sip = system(owner);
    let names = ["first", "second", "third", "fourth"];
    for (i, name) in names.iter().enumerate() {
        assert_eq!(sip.product_count(), i);
        let outcome = sip.add_product(
            &call(owner),
            10 + i as u64,
            name.to_string(),
            format!("BC-{}", i),
            i % 2 == 1,
        );
        assert_eq!(outcome, Ok(()));
        assert_eq!(sip.product_count(), i + 1);
    }
    for (i, name) in names.iter().enumerate() {
        let expected = product(10 + i as u64, name, &format!("BC-{}", i), i % 2 == 1);
        assert_eq!(sip.product(i), Some(&expected));
    }
    assert_eq!(sip.product(names.len()), None);
}

#[test]
fn stranger_cannot_append() {
    let owner = identity(1);
    let stranger = identity(2);
    let mut sip = system(owner);
    assert_eq!(
        sip.add_product(&call(owner), 1, "Cola".to_string(), "BC123".to_string(), false),
        Ok(())
    );
    assert_eq!(
        sip.add_product(&call(stranger), 2, "Knockoff".to_string(), "BC123".to_string(), true),
        Err(Error::Unauthorized)
    );
    assert_eq!(sip.product_count(), 1);
    assert_eq!(sip.product(0), Some(&product(1, "Cola", "BC123", false)));
    assert_eq!(sip.product(1), None);
    assert!(sip.is_valid_product("BC123".to_string()));
    assert_eq!(sip.owner(), owner);
    assert!(sip.is_active());
    assert_eq!(sip.get_user_balance(stranger), "0");
    assert_eq!(sip.get_user_balance(owner), "0");
}

#[test]
fn stranger_differing_in_one_byte_is_rejected() {
    let mut bytes = [9u8; 20];
    let owner = Identity::from_bytes(bytes);
    bytes[0] = 8;
    let stranger = Identity::from_bytes(bytes);
    let mut sip = system(owner);
    assert_eq!(
        sip.add_product(&call(stranger), 1, "Cola".to_string(), "BC123".to_string(), false),
        Err(Error::Unauthorized)
    );
    assert_eq!(sip.product_count(), 0);
}

#[test]
fn unknown_barcode_is_invalid() {
    let owner = identity(1);
    let mut sip = system(owner);
    assert!(!sip.is_valid_product("BC123".to_string()));
    assert!(!sip.is_valid_product(String::new()));
    assert_eq!(
        sip.add_product(&call(owner), 1, "Cola".to_string(), "BC123".to_string(), false),
        Ok(())
    );
    assert!(!sip.is_valid_product("BC124".to_string()));
    assert!(!sip.is_valid_product("BC12".to_string()));
    assert!(!sip.is_valid_product("bc123".to_string()));
    assert!(!sip.is_valid_product("Cola".to_string()));
    assert!(!sip.is_valid_product(String::new()));
}

#[test]
fn first_of_duplicate_barcodes_decides() {
    let owner = identity(1);
    let mut sip = system(owner);
    assert_eq!(
        sip.add_product(&call(owner), 1, "Imitation".to_string(), "DUP".to_string(), true),
        Ok(())
    );
    assert_eq!(
        sip.add_product(&call(owner), 2, "Genuine".to_string(), "DUP".to_string(), false),
        Ok(())
    );
    assert!(!sip.is_valid_product("DUP".to_string()));

    let mut other = system(owner);
    assert_eq!(
        other.add_product(&call(owner), 1, "Genuine".to_string(), "DUP".to_string(), false),
        Ok(())
    );
    assert_eq!(
        other.add_product(&call(owner), 2, "Imitation".to_string(), "DUP".to_string(), true),
        Ok(())
    );
    assert!(other.is_valid_product("DUP".to_string()));
}

#[test]
fn duplicate_ids_are_accepted() {
    let owner = identity(1);
    let mut sip = system(owner);
    assert_eq!(
        sip.add_product(&call(owner), 5, "A".to_string(), "A-1".to_string(), false),
        Ok(())
    );
    assert_eq!(
        sip.add_product(&call(owner), 5, "B".to_string(), "B-1".to_string(), true),
        Ok(())
    );
    assert_eq!(sip.product_count(), 2);
    assert!(sip.is_valid_product("A-1".to_string()));
    assert!(!sip.is_valid_product("B-1".to_string()));
}

#[test]
fn registry_keeps_records_as_appended() {
    let mut registry = ProductRegistry::new();
    assert_eq!(registry.len(), 0);
    assert_eq!(registry.get(0), None);
    assert!(!registry.is_valid_product(&"X".to_string()));
    registry.append(product(1, "One", "X", false));
    registry.append(product(2, "Two", "Y", true));
    registry.append(product(3, "Three", "X", true));
    assert_eq!(registry.len(), 3);
    assert_eq!(registry.get(0), Some(&product(1, "One", "X", false)));
    assert_eq!(registry.get(1), Some(&product(2, "Two", "Y", true)));
    assert_eq!(registry.get(2), Some(&product(3, "Three", "X", true)));
    assert_eq!(registry.get(3), None);
    assert!(registry.is_valid_product(&"X".to_string()));
    assert!(!registry.is_valid_product(&"Y".to_string()));
    assert!(!registry.is_valid_product(&"Z".to_string()));
}
