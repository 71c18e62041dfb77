use collation_scheduler::tx_pause::{ProxyType, WhitelistedCalls};

#[test]
fn proxy_type_default_is_any() {
	assert_eq!(ProxyType::default(), ProxyType::Any);
}

#[test]
fn proxy_type_superset() {
	assert!(ProxyType::Any.is_superset(&ProxyType::JustTransfer));
	assert!(ProxyType::Any.is_superset(&ProxyType::JustUtility));
	assert!(ProxyType::JustUtility.is_superset(&ProxyType::JustUtility));
	assert!(!ProxyType::JustTransfer.is_superset(&ProxyType::Any));
	assert!(!ProxyType::JustTransfer.is_superset(&ProxyType::JustUtility));
}

#[test]
fn whitelisted_calls() {
	assert!(WhitelistedCalls::contains(&(b"Balances".to_vec(), b"transfer_keep_alive".to_vec())));
	assert!(!WhitelistedCalls::contains(&(b"Balances".to_vec(), b"transfer_allow_death".to_vec())));
	assert!(!WhitelistedCalls::contains(&(b"Utility".to_vec(), b"transfer_keep_alive".to_vec())));
	assert!(!WhitelistedCalls::contains(&(b"Balance".to_vec(), b"transfer_keep_alive".to_vec())));
	assert!(!WhitelistedCalls::contains(&(Vec::new(), Vec::new())));
}
