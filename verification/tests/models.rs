use imagegen::factory::{Adapter, ProcessorFactory};
use imagegen::models::{default_steps, InputData, ValidationError};

#[test]
fn default_steps_is_six() {
    assert_eq!(default_steps(), 6);
}

#[test]
fn new_fills_default_steps() {
    let input = InputData::new("a cat".to_string(), None);
    assert_eq!(input.prompt, "a cat");
    assert_eq!(input.steps, 6);
    assert!(input.validate().is_ok());
}

#[test]
fn new_keeps_given_steps() {
    let input = InputData::new("a cat".to_string(), Some(3));
    assert_eq!(input.steps, 3);
    assert!(input.validate().is_ok());
}

#[test]
fn empty_prompt_rejected_regardless_of_steps() {
    for steps in [None, Some(0), Some(4), Some(100)] {
        let input = InputData::new(String::new(), steps);
        match input.validate() {
            Err(ValidationError::EmptyValue) => {}
            other => panic!("expected EmptyValue, got {:?}", other),
        }
    }
}

#[test]
fn whitespace_prompt_is_not_empty() {
    let input = InputData::new("  ".to_string(), None);
    assert!(input.validate().is_ok());
}

#[test]
fn validation_error_message() {
    assert_eq!(ValidationError::EmptyValue.message(), "値が空です");
}

#[test]
fn registry_resolves_known_models() {
    assert!(matches!(ProcessorFactory::create("cf_flux"), Some(Adapter::CfFlux(_))));
    assert!(matches!(ProcessorFactory::create("cf_sdxl"), Some(Adapter::CfSdxl(_))));
    assert!(matches!(ProcessorFactory::create("ta_flux"), Some(Adapter::TaFlux(_))));
}

#[test]
fn registry_rejects_unknown_models() {
    assert!(ProcessorFactory::create("unknown_model").is_none());
    assert!(ProcessorFactory::create("").is_none());
    assert!(ProcessorFactory::create("CF_FLUX").is_none());
    assert!(ProcessorFactory::create("cf_flux ").is_none());
}
