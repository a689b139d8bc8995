use arise::config::ARISE_FILE_EXTENSION;
use arise::config::AriseConfig;
use arise::config::SKIN_FILE_EXTENSION;

#[test]
fn test_default_values() {
    let defaults = AriseConfig::default();

    assert_eq!(defaults.verbosity, 0);
    assert_eq!(defaults.debug, false);
    assert_eq!(defaults.test, false);
    assert_eq!(defaults.base_pathpart, ".");
    assert_eq!(defaults.res_pathpart, "resources");
    assert_eq!(defaults.inp_pathpart, "input");
    assert_eq!(defaults.out_pathpart, "output");
    assert_eq!(defaults.skin_name, "default");
    assert_eq!(defaults.arise_file_name, format!("{}.{}", "default", ARISE_FILE_EXTENSION));
    assert_eq!(defaults.skin_file_name, format!("{}.{}", "default", SKIN_FILE_EXTENSION));
    assert_eq!(defaults.install_skin_folder, "C:\\Users\\YourName\\Documents\\Rainmeter\\Skins");
    assert_eq!(defaults.rainmeter_exe, "C:\\Program Files\\Rainmeter\\Rainmeter.exe");
    assert_eq!(defaults.rainmeter_param_refreshapp, String::from("!RefreshApp"));
    assert_eq!(defaults.rainmeter_param_manage, String::from("!Manage Skins <ConfigName> <SkinIniFile>"));
}

#[test]
fn set_and_check_all_values() {
    let a_conf = AriseConfig::new();

    assert_eq!(a_conf.verbosity, 0);
    assert_eq!(a_conf.debug, false);
    assert_eq!(a_conf.test, false);
    assert_eq!(a_conf.base_pathpart, ".");
    assert_eq!(a_conf.res_pathpart, "resources");
    assert_eq!(a_conf.inp_pathpart, "input");
    assert_eq!(a_conf.out_pathpart, "output");
    assert_eq!(a_conf.skin_name, "default");
    assert_eq!(a_conf.arise_file_name, format!("{}.{}", "default", ARISE_FILE_EXTENSION));
    assert_eq!(a_conf.skin_file_name, format!("{}.{}", "default", SKIN_FILE_EXTENSION));
    assert_eq!(a_conf.install_skin_folder, "C:\\Users\\YourName\\Documents\\Rainmeter\\Skins");
    assert_eq!(a_conf.rainmeter_exe, "C:\\Program Files\\Rainmeter\\Rainmeter.exe");
    assert_eq!(a_conf.rainmeter_param_refreshapp, String::from("!RefreshApp"));
    assert_eq!(a_conf.rainmeter_param_manage, String::from("!Manage Skins <ConfigName> <SkinIniFile>"));
}
