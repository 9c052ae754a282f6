use builder_gen::cmd::{DevopsCmd, FileOperation, StorageSource};
use builder_gen::conf::{env_overrides, DevopsConf, EnvVar, StorageConf};

fn var(name: &str, value: &str) -> EnvVar {
    EnvVar { name: name.to_string(), value: value.to_string() }
}

#[test]
fn service_is_written_in_lower_case() {
    assert_eq!(StorageSource::Obs.to_string(), "obs");
    assert_eq!(StorageSource::Oss.to_string(), "oss");
}

#[test]
fn default_command_gives_nothing() {
    let cmd = DevopsCmd::default();
    assert_eq!(cmd.service, None);
    assert_eq!(cmd.bucket, None);
    assert_eq!(cmd.ak, None);
    assert_eq!(cmd.sk, None);
    assert_eq!(cmd.config_file, None);
    assert_eq!(cmd.file_op, None);
}

#[test]
fn configuration_hands_out_what_it_was_made_of() {
    let storage = StorageConf {
        endpoint: "obs.example.com".to_string(),
        bucket: "<bucket>".to_string(),
        ak: "<ak>".to_string(),
        sk: "<sk>".to_string(),
    };
    let conf = DevopsConf::new(StorageSource::Obs, Some(storage.clone()));
    assert_eq!(conf.service(), &StorageSource::Obs);
    assert_eq!(conf.storage(), Some(&storage));

    let bare = DevopsConf::new(StorageSource::Oss, None);
    assert_eq!(bare.service(), &StorageSource::Oss);
    assert!(bare.storage().is_none());
}

#[test]
fn service_of_the_environment_wins() {
    let cmd = DevopsCmd { service: Some(StorageSource::Oss), ..Default::default() };
    assert_eq!(env_overrides(&cmd, Some("obs")), vec![var("SERVICE", "obs")]);
    let none = DevopsCmd::default();
    assert_eq!(env_overrides(&none, Some("custom")), vec![var("SERVICE", "custom")]);
}

#[test]
fn service_of_the_command_line_fills_in() {
    let cmd = DevopsCmd { service: Some(StorageSource::Oss), ..Default::default() };
    assert_eq!(env_overrides(&cmd, None), vec![var("SERVICE", "oss")]);
    assert_eq!(env_overrides(&cmd, Some("")), vec![var("SERVICE", "oss")]);
}

#[test]
fn given_arguments_are_overridden_in_order() {
    let cmd = DevopsCmd {
        service: Some(StorageSource::Obs),
        bucket: Some("b".to_string()),
        ak: Some("<ak>".to_string()),
        sk: Some("s".to_string()),
        config_file: Some("app.toml".to_string()),
        file_op: Some(FileOperation::Stat { object_key: "rust/demo/qinling-cli/devops-cli".into() }),
    };
    assert_eq!(
        env_overrides(&cmd, None),
        vec![
            var("SERVICE", "obs"),
            var("STORAGE__AK", "<ak>"),
            var("STORAGE__SK", "s"),
            var("STORAGE__BUCKET", "b"),
        ]
    );
}

#[test]
fn arguments_that_are_not_given_are_left_alone() {
    let cmd = DevopsCmd {
        service: Some(StorageSource::Obs),
        sk: Some("s".to_string()),
        ..Default::default()
    };
    assert_eq!(env_overrides(&cmd, None), vec![var("SERVICE", "obs"), var("STORAGE__SK", "s")]);
}
