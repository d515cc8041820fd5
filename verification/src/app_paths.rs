//! The file names the application keeps its data under, built from the
//! platform's application-data directory. Resolving that directory and
//! creating it are done outside the library; the paths themselves are
//! composed here.
use vstd::prelude::*;

verus! {

/// Centralized path composition for the application's files.
pub struct AppPaths;

impl AppPaths {
    /// The configuration file inside the application data directory.
    pub fn get_config_path(app_data_dir: &str) -> (path: String)
        ensures
            path@ == app_data_dir@ + "/config.json"@,
    {
        let mut path = app_data_dir.to_owned();
        path.append("/config.json");
        path
    }

    /// The log file directly inside the application data directory.
    pub fn get_log_path(app_data_dir: &str) -> (path: String)
        ensures
            path@ == app_data_dir@ + "/gpu-temp-watch.log"@,
    {
        let mut path = app_data_dir.to_owned();
        path.append("/gpu-temp-watch.log");
        path
    }

    /// The log file inside the logs directory.
    pub fn get_log_file_path(logs_dir: &str) -> (path: String)
        ensures
            path@ == logs_dir@ + "/gpu-temp-watch.log"@,
    {
        let mut path = logs_dir.to_owned();
        path.append("/gpu-temp-watch.log");
        path
    }
}

} // verus!
