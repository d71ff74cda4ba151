use petals_core::device::{has_accelerator_gpu, select_device};

#[test]
fn nvidia_card_selects_accelerator() {
    let gpus = vec!["NVIDIA GeForce RTX 3080".to_string()];
    assert!(has_accelerator_gpu(&gpus));
    assert_eq!(select_device(&gpus), "cuda");
}

#[test]
fn integrated_card_selects_fallback() {
    let gpus = vec!["Intel UHD Graphics".to_string()];
    assert!(!has_accelerator_gpu(&gpus));
    assert_eq!(select_device(&gpus), "cpu");
}

#[test]
fn empty_report_selects_fallback() {
    let gpus: Vec<String> = Vec::new();
    assert_eq!(select_device(&gpus), "cpu");
}

#[test]
fn matching_is_case_insensitive() {
    assert_eq!(select_device(&vec!["nvidia corporation".to_string()]), "cuda");
    assert_eq!(select_device(&vec!["GTX 1060 6GB".to_string()]), "cuda");
    assert_eq!(select_device(&vec!["AMD Radeon rx 6800".to_string()]), "cpu");
}

#[test]
fn any_entry_in_the_list_counts() {
    let gpus = vec![
        "Intel UHD Graphics".to_string(),
        "NVIDIA RTX A2000".to_string(),
    ];
    assert!(has_accelerator_gpu(&gpus));
}
