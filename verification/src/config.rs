//! The configuration of a generation run.

use vstd::prelude::*;

verus! {

/// File extension of the generator-definition source files.
pub const ARISE_FILE_EXTENSION: &'static str = "arise";

/// File extension of the generated Rainmeter skin files.
pub const SKIN_FILE_EXTENSION: &'static str = "ini";

/// The immutable configuration of one generation run: verbosity and mode
/// switches, the path parts that make up the input and output locations,
/// the file names to work on, and the Rainmeter installation particulars.
/// Paths are carried as plain text; the surrounding shell turns them into
/// real filesystem paths.
#[derive(Debug, Clone)]
pub struct AriseConfig {
    pub verbosity: u8,
    pub debug: bool,
    pub test: bool,
    pub base_pathpart: String,
    pub res_pathpart: String,
    pub inp_pathpart: String,
    pub out_pathpart: String,
    pub skin_name: String,
    pub arise_file_name: String,
    pub skin_file_name: String,
    pub install_skin_folder: String,
    pub rainmeter_exe: String,
    pub rainmeter_param_refreshapp: String,
    pub rainmeter_param_manage: String,
}

impl AriseConfig {
    /// Every field holds its default value.  The two file names derive from
    /// the default skin name: the generator source carries the `arise`
    /// extension, the generated skin the `ini` extension.
    pub open spec fn is_default(self) -> bool {
        &&& self.verbosity == 0
        &&& self.debug == false
        &&& self.test == false
        &&& self.base_pathpart@ == "."@
        &&& self.res_pathpart@ == "resources"@
        &&& self.inp_pathpart@ == "input"@
        &&& self.out_pathpart@ == "output"@
        &&& self.skin_name@ == "default"@
        &&& self.arise_file_name@ == "default"@ + "."@ + "arise"@
        &&& self.skin_file_name@ == "default"@ + "."@ + "ini"@
        &&& self.install_skin_folder@ == "C:\\Users\\YourName\\Documents\\Rainmeter\\Skins"@
        &&& self.rainmeter_exe@ == "C:\\Program Files\\Rainmeter\\Rainmeter.exe"@
        &&& self.rainmeter_param_refreshapp@ == "!RefreshApp"@
        &&& self.rainmeter_param_manage@ == "!Manage Skins <ConfigName> <SkinIniFile>"@
    }

    /// Creates a configuration with every field at its default value.
    pub fn new() -> (c: AriseConfig)
        ensures
            c.is_default(),
    {
        let mut arise_file_name = String::from_str("default");
        arise_file_name.append(".");
        arise_file_name.append(ARISE_FILE_EXTENSION);
        let mut skin_file_name = String::from_str("default");
        skin_file_name.append(".");
        skin_file_name.append(SKIN_FILE_EXTENSION);
        AriseConfig {
            verbosity: 0,
            debug: false,
            test: false,
            base_pathpart: String::from_str("."),
            res_pathpart: String::from_str("resources"),
            inp_pathpart: String::from_str("input"),
            out_pathpart: String::from_str("output"),
            skin_name: String::from_str("default"),
            arise_file_name,
            skin_file_name,
            install_skin_folder: String::from_str("C:\\Users\\YourName\\Documents\\Rainmeter\\Skins"),
            rainmeter_exe: String::from_str("C:\\Program Files\\Rainmeter\\Rainmeter.exe"),
            rainmeter_param_refreshapp: String::from_str("!RefreshApp"),
            rainmeter_param_manage: String::from_str("!Manage Skins <ConfigName> <SkinIniFile>"),
        }
    }
}

impl Default for AriseConfig {
    /// The same values as `AriseConfig::new`.
    fn default() -> (c: AriseConfig)
        ensures
            c.is_default(),
    {
        AriseConfig::new()
    }
}

} // verus!
