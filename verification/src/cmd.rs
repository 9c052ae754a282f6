//! The command line of the storage tool, as plain values.
//!
//! Reading the arguments is the caller's business; here is what they amount
//! to once they are read.

use vstd::prelude::*;
use crate::text::owned;

verus! {

/// The storage service to talk to.
#[derive(Debug, Clone, Copy, PartialEq, Eq, Structural)]
pub enum StorageSource {
    /// Huawei Cloud OBS.
    Obs,
    /// Alibaba Cloud OSS.
    Oss,
}

/// The name of a service, in lower case.
pub open spec fn source_name(source: StorageSource) -> Seq<char> {
    match source {
        StorageSource::Obs => "obs"@,
        StorageSource::Oss => "oss"@,
    }
}

impl StorageSource {
    /// The service's name, as it is written on the command line and in
    /// configuration files.
    pub fn to_string(&self) -> (s: String)
        ensures
            s@ == source_name(*self),
    {
        match self {
            StorageSource::Obs => owned("obs"),
            StorageSource::Oss => owned("oss"),
        }
    }
}

/// What to do with a file.
#[derive(Debug, Clone, PartialEq, Eq)]
pub enum FileOperation {
    /// Upload the local file `src` as the object `object_key`.
    Put { src: String, object_key: String },
    /// Download the object `object_key` to the new local file `dst`.
    Get { object_key: String, dst: String },
    /// Print what is known about the object `object_key`.
    Stat { object_key: String },
}

/// The arguments of one run.
#[derive(Debug)]
pub struct DevopsCmd {
    /// The storage service to use.
    pub service: Option<StorageSource>,
    pub bucket: Option<String>,
    pub ak: Option<String>,
    pub sk: Option<String>,
    pub config_file: Option<String>,
    pub file_op: Option<FileOperation>,
}

impl Default for DevopsCmd {
    /// No argument given.
    fn default() -> (cmd: Self)
        ensures
            cmd.service is None,
            cmd.bucket is None,
            cmd.ak is None,
            cmd.sk is None,
            cmd.config_file is None,
            cmd.file_op is None,
    {
        DevopsCmd {
            service: None,
            bucket: None,
            ak: None,
            sk: None,
            config_file: None,
            file_op: None,
        }
    }
}

} // verus!
