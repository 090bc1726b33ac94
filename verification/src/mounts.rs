//! Mount request planning.
//!
//! Every mount the transition performs is described by a [`MountSpec`]
//! value. The plans here pin down, byte for byte, which mounts are made,
//! with which flags, and in which order; the surrounding process hands
//! each request to the kernel unchanged.

use vstd::prelude::*;

verus! {

/// Mount read-only.
pub const MS_RDONLY: u64 = 1;

/// Ignore set-user-id and set-group-id bits.
pub const MS_NOSUID: u64 = 2;

/// Disallow access to device special files.
pub const MS_NODEV: u64 = 4;

/// Disallow program execution.
pub const MS_NOEXEC: u64 = 8;

/// Atomically move an existing mount to a new location.
pub const MS_MOVE: u64 = 8192;

/// One mount request: source, optional filesystem type, target, flag
/// bitset and an optional option string. Value-only; never stored.
pub struct MountSpec {
    pub source: Vec<u8>,
    pub fstype: Option<Vec<u8>>,
    pub target: Vec<u8>,
    pub flags: u64,
    pub options: Option<Vec<u8>>,
}

/// The mathematical image of a mount request.
#[verifier::ext_equal]
pub ghost struct MountSpecV {
    pub source: Seq<u8>,
    pub fstype: Option<Seq<u8>>,
    pub target: Seq<u8>,
    pub flags: u64,
    pub options: Option<Seq<u8>>,
}

impl View for MountSpec {
    type V = MountSpecV;

    open spec fn view(&self) -> MountSpecV {
        MountSpecV {
            source: self.source@,
            fstype: self.fstype.deep_view(),
            target: self.target@,
            flags: self.flags,
            options: self.options.deep_view(),
        }
    }
}

/// The bytes of `"devtmpfs"`.
pub open spec fn devtmpfs_name() -> Seq<u8> {
    seq![100u8, 101u8, 118u8, 116u8, 109u8, 112u8, 102u8, 115u8]
}

/// The bytes of `"/dev"`.
pub open spec fn dev_path() -> Seq<u8> {
    seq![47u8, 100u8, 101u8, 118u8]
}

/// The bytes of `"sysfs"`.
pub open spec fn sysfs_name() -> Seq<u8> {
    seq![115u8, 121u8, 115u8, 102u8, 115u8]
}

/// The bytes of `"/sys"`.
pub open spec fn sys_path() -> Seq<u8> {
    seq![47u8, 115u8, 121u8, 115u8]
}

/// The bytes of `"proc"`.
pub open spec fn proc_name() -> Seq<u8> {
    seq![112u8, 114u8, 111u8, 99u8]
}

/// The bytes of `"/proc"`.
pub open spec fn proc_path() -> Seq<u8> {
    seq![47u8, 112u8, 114u8, 111u8, 99u8]
}

/// The bytes of `"/sysroot"`.
pub open spec fn sysroot_path() -> Seq<u8> {
    seq![47u8, 115u8, 121u8, 115u8, 114u8, 111u8, 111u8, 116u8]
}

/// The bytes of `"/sysroot/dev"`.
pub open spec fn sysroot_dev_path() -> Seq<u8> {
    sysroot_path() + dev_path()
}

/// The bytes of `"/sysroot/sys"`.
pub open spec fn sysroot_sys_path() -> Seq<u8> {
    sysroot_path() + sys_path()
}

/// The bytes of `"/sysroot/proc"`.
pub open spec fn sysroot_proc_path() -> Seq<u8> {
    sysroot_path() + proc_path()
}

/// The bytes of `"."`, the working directory.
pub open spec fn cwd_name() -> Seq<u8> {
    seq![46u8]
}

/// The bytes of `"/"`.
pub open spec fn root_path() -> Seq<u8> {
    seq![47u8]
}

/// The bytes of `"/rootfs"`, the fixed backing image path.
pub open spec fn backing_path() -> Seq<u8> {
    seq![47u8, 114u8, 111u8, 111u8, 116u8, 102u8, 115u8]
}

/// The three pseudo-filesystem mounts staged before anything else, in
/// order: `devtmpfs` on `/dev` and `sysfs` on `/sys`, each no-exec and
/// no-setuid, then `proc` on `/proc`, no-device and no-setuid.
pub open spec fn pseudo_plan() -> Seq<MountSpecV> {
    seq![
        MountSpecV {
            source: devtmpfs_name(),
            fstype: Some(devtmpfs_name()),
            target: dev_path(),
            flags: MS_NOEXEC | MS_NOSUID,
            options: None,
        },
        MountSpecV {
            source: sysfs_name(),
            fstype: Some(sysfs_name()),
            target: sys_path(),
            flags: MS_NOEXEC | MS_NOSUID,
            options: None,
        },
        MountSpecV {
            source: proc_name(),
            fstype: Some(proc_name()),
            target: proc_path(),
            flags: MS_NODEV | MS_NOSUID,
            options: None,
        },
    ]
}

/// The root mount request: the loop device mounted read-only, no-device
/// and no-setuid at `/sysroot` under the resolved filesystem type.
pub open spec fn root_plan(device: Seq<u8>, fstype: Seq<u8>) -> MountSpecV {
    MountSpecV {
        source: device,
        fstype: Some(fstype),
        target: sysroot_path(),
        flags: MS_RDONLY | MS_NODEV | MS_NOSUID,
        options: None,
    }
}

/// The four move-mounts that relocate into the new root, in order:
/// `/dev`, `/sys` and `/proc` to their places under `/sysroot`, then the
/// working directory onto `/`. The root move comes last: nothing may
/// reference the old root afterward.
pub open spec fn move_plan() -> Seq<MountSpecV> {
    seq![
        MountSpecV {
            source: dev_path(),
            fstype: None,
            target: sysroot_dev_path(),
            flags: MS_MOVE,
            options: None,
        },
        MountSpecV {
            source: sys_path(),
            fstype: None,
            target: sysroot_sys_path(),
            flags: MS_MOVE,
            options: None,
        },
        MountSpecV {
            source: proc_path(),
            fstype: None,
            target: sysroot_proc_path(),
            flags: MS_MOVE,
            options: None,
        },
        MountSpecV {
            source: cwd_name(),
            fstype: None,
            target: root_path(),
            flags: MS_MOVE,
            options: None,
        },
    ]
}

/// Builds the staged pseudo-filesystem mount requests.
pub fn pseudo_mount_plan() -> (r: Vec<MountSpec>)
    ensures
        r@.len() == pseudo_plan().len(),
        forall|k: int| 0 <= k < r@.len() ==> r@[k]@ == pseudo_plan()[k],
{
    let mut v: Vec<MountSpec> = Vec::new();
    v.push(MountSpec {
        source: vec![100u8, 101, 118, 116, 109, 112, 102, 115],
        fstype: Some(vec![100u8, 101, 118, 116, 109, 112, 102, 115]),
        target: vec![47u8, 100, 101, 118],
        flags: MS_NOEXEC | MS_NOSUID,
        options: None,
    });
    v.push(MountSpec {
        source: vec![115u8, 121, 115, 102, 115],
        fstype: Some(vec![115u8, 121, 115, 102, 115]),
        target: vec![47u8, 115, 121, 115],
        flags: MS_NOEXEC | MS_NOSUID,
        options: None,
    });
    v.push(MountSpec {
        source: vec![112u8, 114, 111, 99],
        fstype: Some(vec![112u8, 114, 111, 99]),
        target: vec![47u8, 112, 114, 111, 99],
        flags: MS_NODEV | MS_NOSUID,
        options: None,
    });
    proof {
        assert(v@[0]@ =~= pseudo_plan()[0]);
        assert(v@[1]@ =~= pseudo_plan()[1]);
        assert(v@[2]@ =~= pseudo_plan()[2]);
    }
    v
}

/// Builds the root mount request for the given loop device and type.
pub fn root_mount_spec(device: Vec<u8>, fstype: Vec<u8>) -> (r: MountSpec)
    ensures
        r@ == root_plan(device@, fstype@),
{
    let r = MountSpec {
        source: device,
        fstype: Some(fstype),
        target: vec![47u8, 115, 121, 115, 114, 111, 111, 116],
        flags: MS_RDONLY | MS_NODEV | MS_NOSUID,
        options: None,
    };
    proof {
        assert(r@ =~= root_plan(r.source@, r.fstype.deep_view().unwrap()));
    }
    r
}

/// Builds the move-mount requests that relocate into the new root.
pub fn move_mount_plan() -> (r: Vec<MountSpec>)
    ensures
        r@.len() == move_plan().len(),
        forall|k: int| 0 <= k < r@.len() ==> r@[k]@ == move_plan()[k],
{
    let mut v: Vec<MountSpec> = Vec::new();
    v.push(MountSpec {
        source: vec![47u8, 100, 101, 118],
        fstype: None,
        target: vec![47u8, 115, 121, 115, 114, 111, 111, 116, 47, 100, 101, 118],
        flags: MS_MOVE,
        options: None,
    });
    v.push(MountSpec {
        source: vec![47u8, 115, 121, 115],
        fstype: None,
        target: vec![47u8, 115, 121, 115, 114, 111, 111, 116, 47, 115, 121, 115],
        flags: MS_MOVE,
        options: None,
    });
    v.push(MountSpec {
        source: vec![47u8, 112, 114, 111, 99],
        fstype: None,
        target: vec![47u8, 115, 121, 115, 114, 111, 111, 116, 47, 112, 114, 111, 99],
        flags: MS_MOVE,
        options: None,
    });
    v.push(MountSpec {
        source: vec![46u8],
        fstype: None,
        target: vec![47u8],
        flags: MS_MOVE,
        options: None,
    });
    proof {
        assert(v@[0]@.target =~= sysroot_dev_path());
        assert(v@[1]@.target =~= sysroot_sys_path());
        assert(v@[2]@.target =~= sysroot_proc_path());
        assert(v@[0]@ =~= move_plan()[0]);
        assert(v@[1]@ =~= move_plan()[1]);
        assert(v@[2]@ =~= move_plan()[2]);
        assert(v@[3]@ =~= move_plan()[3]);
    }
    v
}

/// The fixed path of the backing root image.
pub fn backing_image_path() -> (r: Vec<u8>)
    ensures
        r@ == backing_path(),
{
    let v: Vec<u8> = vec![47u8, 114, 111, 111, 116, 102, 115];
    assert(v@ =~= backing_path());
    v
}

} // verus!
