use vstd::prelude::*;

verus! {

/// Configuration for mounting the file system and connecting the host
/// extension to this library.
///
/// * `socket_port`: TCP port of the local IPC endpoint.
/// * `fs_type`: file system type selector; it must equal the type the host
///   extension declares.
/// * `mount_point`: existing (usually empty) directory to mount onto.
/// * `force`: when set, anything already mounted at `mount_point` is
///   unmounted before mounting.
#[derive(Debug, Clone)]
pub struct MountOptions {
    pub socket_port: u16,
    pub fs_type: String,
    pub mount_point: String,
    pub force: bool,
}

/// Default TCP port of the local IPC endpoint.
pub const DEFAULT_SOCKET_PORT: u16 = 35367;

impl MountOptions {
    /// The values `default` produces: port 35367, type `bridgefs`, mount
    /// point `/tmp/bridgefs-mount-point`, forced.
    pub open spec fn is_default(self) -> bool {
        &&& self.socket_port == 35367
        &&& self.fs_type@ == "bridgefs"@
        &&& self.mount_point@ == "/tmp/bridgefs-mount-point"@
        &&& self.force
    }
}

impl Default for MountOptions {
    fn default() -> (opts: Self)
        ensures
            opts.is_default(),
    {
        MountOptions {
            socket_port: DEFAULT_SOCKET_PORT,
            fs_type: String::from_str("bridgefs"),
            mount_point: String::from_str("/tmp/bridgefs-mount-point"),
            force: true,
        }
    }
}

} // verus!
