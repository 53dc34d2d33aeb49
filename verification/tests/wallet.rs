use collector::wallet::{check_address, WalletData};
use regex::Regex;

fn data(address: &str, private_key: Option<&str>) -> WalletData {
    WalletData { address: address.to_string(), private_key: private_key.map(|k| k.to_string()) }
}

const GOOD: &str = "TJRabPrwbZy45sbavfcjinPJC18kjpRTv8";

#[test]
fn well_formed_address_passes() {
    assert_eq!(GOOD.chars().count(), 34);
    assert_eq!(data(GOOD, None).validate(), Ok(()));
}

#[test]
fn private_key_is_not_allowed() {
    assert_eq!(data(GOOD, Some("secret")).validate(), Err("private_key not allowed".to_string()));
    assert_eq!(data("bad", Some("")).validate(), Err("private_key not allowed".to_string()));
}

#[test]
fn malformed_address_is_refused() {
    let invalid = Err("invalid address".to_string());
    assert_eq!(data("", None).validate(), invalid);
    assert_eq!(data("T", None).validate(), invalid);
    assert_eq!(data(&GOOD[..33], None).validate(), invalid);
    assert_eq!(data(&format!("{}a", GOOD), None).validate(), invalid);
    assert_eq!(data(&format!("A{}", &GOOD[1..]), None).validate(), invalid);
    assert_eq!(data(&format!("t{}", &GOOD[1..]), None).validate(), invalid);
    assert_eq!(data(&format!("{}0", &GOOD[..33]), None).validate(), invalid);
    assert_eq!(data(&format!("{}_", &GOOD[..33]), None).validate(), invalid);
    assert_eq!(data(&format!("{}\n", GOOD), None).validate(), invalid);
    assert_eq!(data(&format!(" {}", GOOD), None).validate(), invalid);
    assert_eq!(data(&format!("{}é", &GOOD[..33]), None).validate(), invalid);
}

#[test]
fn check_address_agrees_with_the_pattern() {
    let re = Regex::new(r"^T[A-Za-z1-9]{33}$").unwrap();
    let mut samples: Vec<String> = vec![
        GOOD.to_string(),
        String::new(),
        "T".to_string(),
        "T".repeat(34),
        "T".repeat(33),
        "T".repeat(35),
        "1".repeat(34),
        format!("T{}", "9".repeat(33)),
        format!("T{}", "0".repeat(33)),
        format!("T{}", "z".repeat(33)),
        format!("T{}", "Z".repeat(33)),
        format!("T{}", "é".repeat(33)),
        format!("T{}\n", "a".repeat(33)),
        format!("T{}\n", "a".repeat(32)),
        format!("\nT{}", "a".repeat(33)),
        format!("T{}é", "a".repeat(32)),
        format!("é{}", "a".repeat(33)),
    ];
    for c in ['@', '[', '`', '{', '/', ':', '0', ' ', 'A', 'Z', 'a', 'z', '1', '9'] {
        for pos in [0usize, 1, 17, 33] {
            let mut chars: Vec<char> = GOOD.chars().collect();
            chars[pos] = c;
            samples.push(chars.into_iter().collect());
        }
    }
    for s in samples {
        assert_eq!(check_address(&s), re.is_match(&s), "{:?}", s);
    }
}
