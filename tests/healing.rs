use gdnd::device::{DeviceId, DeviceType};
use gdnd::healing::{HealingAction, HealingConfig, HealingError, HealingStrategy, SelfHealer};

#[test]
fn test_healing_disabled_by_default() {
    let config = HealingConfig::default();
    assert!(!config.enabled);
    assert_eq!(config.strategy, HealingStrategy::Conservative);
}

#[test]
fn test_healer_disabled() {
    let config = HealingConfig::default();
    let healer = SelfHealer::new(config, DeviceType::Nvidia);

    assert!(!healer.is_enabled());
    assert!(healer.available_actions().is_empty());
}

#[test]
fn test_healer_conservative_actions() {
    let config = HealingConfig { enabled: true, strategy: HealingStrategy::Conservative, ..Default::default() };
    let healer = SelfHealer::new(config, DeviceType::Nvidia);

    let actions = healer.available_actions();
    assert_eq!(actions.len(), 1);
    assert!(matches!(actions[0], HealingAction::KillZombieProcesses));
}

#[test]
fn test_healer_moderate_actions() {
    let config = HealingConfig { enabled: true, strategy: HealingStrategy::Moderate, ..Default::default() };
    let healer = SelfHealer::new(config, DeviceType::Nvidia);

    let actions = healer.available_actions();
    assert_eq!(actions.len(), 2);
    assert!(matches!(actions[0], HealingAction::KillZombieProcesses));
    assert!(matches!(actions[1], HealingAction::GpuSoftReset { device_index: 0 }));
}

#[test]
fn test_healer_aggressive_actions() {
    let config = HealingConfig { enabled: true, strategy: HealingStrategy::Aggressive, ..Default::default() };
    let healer = SelfHealer::new(config, DeviceType::Nvidia);

    let actions = healer.available_actions();
    assert_eq!(actions.len(), 3);
    assert!(matches!(actions[2], HealingAction::DriverReload));
}

#[test]
fn test_healer_dry_run() {
    let config = HealingConfig {
        enabled: true,
        strategy: HealingStrategy::Conservative,
        dry_run: true,
        ..Default::default()
    };
    let healer = SelfHealer::new(config, DeviceType::Nvidia);

    let result = healer.prepare(HealingAction::KillZombieProcesses).unwrap().unwrap();
    assert!(result.success);
    assert!(result.message.unwrap().contains("Dry run"));
}

#[test]
fn test_unsupported_device() {
    let config = HealingConfig { enabled: true, strategy: HealingStrategy::Moderate, ..Default::default() };
    let healer = SelfHealer::new(config, DeviceType::Ascend);

    let result = healer.prepare(HealingAction::GpuSoftReset { device_index: 0 });
    assert!(matches!(result, Err(HealingError::UnsupportedDevice(_))));
}

#[test]
fn heal_plan_follows_strategy_and_vendor() {
    let device = DeviceId { index: 3, uuid: None, name: "Ascend 910".to_string() };
    let off = SelfHealer::new(HealingConfig::default(), DeviceType::Nvidia);
    assert_eq!(off.heal(&device), Err(HealingError::Disabled));

    let aggressive = HealingConfig { enabled: true, strategy: HealingStrategy::Aggressive, ..Default::default() };
    let nvidia = SelfHealer::new(aggressive.clone(), DeviceType::Nvidia);
    assert_eq!(
        nvidia.heal(&device).unwrap(),
        vec![
            HealingAction::KillZombieProcesses,
            HealingAction::GpuSoftReset { device_index: 3 },
            HealingAction::DriverReload
        ]
    );
    let npu = SelfHealer::new(aggressive, DeviceType::Ascend);
    assert_eq!(npu.heal(&device).unwrap(), vec![HealingAction::KillZombieProcesses]);
}

#[test]
fn prepare_without_dry_run_defers_to_execution() {
    let config = HealingConfig { enabled: true, ..Default::default() };
    let healer = SelfHealer::new(config, DeviceType::Nvidia);
    assert_eq!(healer.prepare(HealingAction::DriverReload), Ok(None));
    assert_eq!(healer.prepare(HealingAction::KillProcess { pid: 7 }), Ok(None));
}
