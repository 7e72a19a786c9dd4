//! Tests for the reconciliation combinators, the price merge, and the text
//! helpers.

use runpod::combine::{add_option, combine_lowest_price, min_option, min_option_string, option_string_eq};
use runpod::error::RunpodError;
use runpod::text::{display_environment_variable, display_option, str_eq, str_le};
use runpod::types::{Compliance, LowestPrice, PodStatus, PodType};

fn empty_price() -> LowestPrice {
    LowestPrice {
        gpu_name: None,
        gpu_type_id: None,
        minimum_bid_price: None,
        uninterruptable_price: None,
        min_memory: None,
        min_vcpu: None,
        rental_percentage: None,
        rented_count: None,
        total_count: None,
        stock_status: None,
        min_download: None,
        min_disk: None,
        min_upload: None,
        country_code: None,
        support_public_ip: None,
        compliance: None,
    }
}

#[test]
fn sum_fields_never_fabricate_zero() {
    assert_eq!(add_option(None, None), None);
    assert_eq!(add_option(Some(3), None), Some(3));
    assert_eq!(add_option(None, Some(3)), Some(3));
    assert_eq!(add_option(Some(3), Some(4)), Some(7));
}

#[test]
fn min_fields_null_safe() {
    assert_eq!(min_option(None, Some(5i64)), Some(5));
    assert_eq!(min_option(Some(5i64), None), Some(5));
    assert_eq!(min_option(Some(2i64), Some(5i64)), Some(2));
    assert_eq!(min_option(Some(5i64), Some(2i64)), Some(2));
    assert_eq!(min_option::<i64>(None, None), None);
    assert_eq!(min_option(Some(7u64), Some(7u64)), Some(7));
}

#[test]
fn min_option_string_is_lexicographic() {
    assert_eq!(
        min_option_string(Some("High".to_string()), Some("Low".to_string())),
        Some("High".to_string())
    );
    assert_eq!(
        min_option_string(Some("Low".to_string()), Some("High".to_string())),
        Some("High".to_string())
    );
    assert_eq!(min_option_string(None, Some("Low".to_string())), Some("Low".to_string()));
    assert_eq!(min_option_string(Some("Low".to_string()), None), Some("Low".to_string()));
    assert_eq!(min_option_string(None, None), None);
}

#[test]
fn string_comparisons() {
    assert!(str_eq("abc", "abc"));
    assert!(!str_eq("abc", "abd"));
    assert!(!str_eq("abc", "ab"));
    assert!(str_le("", "a"));
    assert!(str_le("ab", "ab"));
    assert!(str_le("ab", "abc"));
    assert!(!str_le("abc", "ab"));
    assert!(str_le("aBc", "abc"));
    assert!(!str_le("b", "azzz"));
}

#[test]
fn option_string_eq_compares_content() {
    assert!(option_string_eq(&Some("X".to_string()), &Some("X".to_string())));
    assert!(!option_string_eq(&Some("X".to_string()), &Some("Y".to_string())));
    assert!(!option_string_eq(&Some("X".to_string()), &None));
    assert!(option_string_eq(&None, &None));
}

#[test]
fn price_merge_rejects_gpu_name_mismatch() {
    let secure = LowestPrice { gpu_name: Some("X".to_string()), ..empty_price() };
    let community = LowestPrice { gpu_name: Some("Y".to_string()), ..empty_price() };
    let result = combine_lowest_price(secure, community);
    match result {
        Err(RunpodError::InvalidInput(message)) => {
            assert_eq!(message, "GPU names do not match");
        }
        other => panic!("expected an InvalidInput error, got {:?}", other),
    }
}

#[test]
fn price_merge_rejects_gpu_type_mismatch() {
    let secure = LowestPrice {
        gpu_name: Some("X".to_string()),
        gpu_type_id: Some("t1".to_string()),
        ..empty_price()
    };
    let community = LowestPrice {
        gpu_name: Some("X".to_string()),
        gpu_type_id: Some("t2".to_string()),
        ..empty_price()
    };
    let result = combine_lowest_price(secure, community);
    match result {
        Err(RunpodError::InvalidInput(message)) => {
            assert_eq!(message, "GPU types do not match");
        }
        other => panic!("expected an InvalidInput error, got {:?}", other),
    }
}

#[test]
fn country_code_always_from_secure_side() {
    let secure = LowestPrice { country_code: None, ..empty_price() };
    let community = LowestPrice { country_code: Some("US".to_string()), ..empty_price() };
    let merged = combine_lowest_price(secure, community).expect("identities agree");
    assert_eq!(merged.country_code, None);
}

#[test]
fn price_merge_combines_field_by_field() {
    let secure = LowestPrice {
        gpu_name: Some("X".to_string()),
        gpu_type_id: Some("t1".to_string()),
        minimum_bid_price: Some(900_000),
        uninterruptable_price: None,
        min_memory: Some(16),
        min_vcpu: Some(8),
        rental_percentage: Some(50_000_000),
        rented_count: Some(2),
        total_count: Some(10),
        stock_status: Some("Low".to_string()),
        min_download: Some(100),
        min_disk: None,
        min_upload: Some(20),
        country_code: Some("NO".to_string()),
        support_public_ip: None,
        compliance: Some(vec![Compliance::Gdpr]),
    };
    let community = LowestPrice {
        gpu_name: Some("X".to_string()),
        gpu_type_id: Some("t1".to_string()),
        minimum_bid_price: Some(800_000),
        uninterruptable_price: Some(1_200_000),
        min_memory: Some(8),
        min_vcpu: Some(16),
        rental_percentage: Some(30_000_000),
        rented_count: Some(5),
        total_count: None,
        stock_status: Some("High".to_string()),
        min_download: Some(50),
        min_disk: Some(40),
        min_upload: Some(25),
        country_code: Some("US".to_string()),
        support_public_ip: Some(true),
        compliance: Some(vec![Compliance::Itar]),
    };
    let merged = combine_lowest_price(secure, community).expect("identities agree");
    assert_eq!(merged.gpu_name, Some("X".to_string()));
    assert_eq!(merged.gpu_type_id, Some("t1".to_string()));
    assert_eq!(merged.minimum_bid_price, Some(800_000));
    assert_eq!(merged.uninterruptable_price, Some(1_200_000));
    assert_eq!(merged.min_memory, Some(8));
    assert_eq!(merged.min_vcpu, Some(8));
    assert_eq!(merged.rental_percentage, Some(30_000_000));
    assert_eq!(merged.rented_count, Some(7));
    assert_eq!(merged.total_count, Some(10));
    assert_eq!(merged.stock_status, Some("High".to_string()));
    assert_eq!(merged.min_download, Some(50));
    assert_eq!(merged.min_disk, Some(40));
    assert_eq!(merged.min_upload, Some(20));
    assert_eq!(merged.country_code, Some("NO".to_string()));
    assert_eq!(merged.support_public_ip, Some(true));
    assert_eq!(merged.compliance, Some(vec![Compliance::Gdpr]));
}

#[test]
fn compliance_tags_round_trip() {
    assert_eq!(Compliance::from_tag("GDPR"), Some(Compliance::Gdpr));
    assert_eq!(Compliance::from_tag("ISO_IEC_27001"), Some(Compliance::IsoIec27001));
    assert_eq!(Compliance::from_tag("ISO_14001"), Some(Compliance::Iso14001));
    assert_eq!(Compliance::from_tag("PCI_DSS"), Some(Compliance::PciDss));
    assert_eq!(Compliance::from_tag("HITRUST"), Some(Compliance::Hitrust));
    assert_eq!(Compliance::from_tag("SOC_1_TYPE_2"), Some(Compliance::Soc1Type2));
    assert_eq!(Compliance::from_tag("SOC_2_TYPE_2"), Some(Compliance::Soc2Type2));
    assert_eq!(Compliance::from_tag("SOC_3_TYPE_2"), Some(Compliance::Soc3Type2));
    assert_eq!(Compliance::from_tag("ITAR"), Some(Compliance::Itar));
    assert_eq!(Compliance::from_tag("FISMA_HIGH"), Some(Compliance::FismaHigh));
    assert_eq!(Compliance::from_tag("SOMETHING_NEW"), None);
}

#[test]
fn pod_type_tags() {
    assert_eq!(PodType::from_tag("INTERRUPTABLE"), Some(PodType::Interruptable));
    assert_eq!(PodType::from_tag("RESERVED"), Some(PodType::Reserved));
    assert_eq!(PodType::from_tag("BID"), Some(PodType::Bid));
    assert_eq!(PodType::from_tag("BACKGROUND"), Some(PodType::Background));
    assert_eq!(PodType::from_tag("bid"), None);
}

#[test]
fn pod_status_tags() {
    assert_eq!(PodStatus::from_tag("CREATED"), Some(PodStatus::Created));
    assert_eq!(PodStatus::from_tag("RUNNING"), Some(PodStatus::Running));
    assert_eq!(PodStatus::from_tag("RESTARTING"), Some(PodStatus::Restarting));
    assert_eq!(PodStatus::from_tag("EXITED"), Some(PodStatus::Exited));
    assert_eq!(PodStatus::from_tag("PAUSED"), Some(PodStatus::Paused));
    assert_eq!(PodStatus::from_tag("DEAD"), Some(PodStatus::Dead));
    assert_eq!(PodStatus::from_tag("TERMINATED"), Some(PodStatus::Terminated));
    assert_eq!(PodStatus::from_tag("SLEEPING"), None);
    assert_eq!(PodStatus::Running.tag(), "RUNNING");
}

#[test]
fn confirm_stopped_accepts_only_exited() {
    assert_eq!(PodStatus::Exited.confirm_stopped(), Ok(PodStatus::Terminated));
    match PodStatus::Running.confirm_stopped() {
        Err(RunpodError::ServerError(message)) => {
            assert_eq!(message, "Pod did not stop: RUNNING");
        }
        other => panic!("expected a ServerError, got {:?}", other),
    }
}

#[test]
fn display_option_renders_value_or_default() {
    assert_eq!(display_option(&Some(42i64), ""), "42");
    assert_eq!(display_option::<i64>(&None, ""), "");
    assert_eq!(display_option(&Some("name".to_string()), "-"), "name");
    assert_eq!(display_option::<String>(&None, "-"), "-");
}

#[test]
fn display_environment_variable_is_blank() {
    assert_eq!(display_environment_variable(()), "");
}
