//! FUSE mount options.

use vstd::prelude::*;
use vstd::seq_lib::lemma_seq_concat_contains_all_elements;

use crate::config::MountConfig;

verus! {

/// High-level mount options.
#[derive(Clone, Debug)]
pub struct FuserMountOptions {
    /// Filesystem name reported to the kernel (appears in /proc/mounts).
    pub fs_name: String,
    /// Filesystem subtype (e.g. "sim").
    pub subtype: String,
    /// Automatically unmount when the process exits.
    pub auto_unmount: bool,
    /// Enable kernel-level permission checking.
    pub default_permissions: bool,
    /// Mount as read-only.
    pub read_only: bool,
    /// Enable direct I/O (bypass page cache).
    pub direct_io: bool,
    /// Allow other users to access the mount.
    pub allow_other: bool,
}

/// An option of a mount call.
#[derive(Debug, PartialEq, Eq)]
pub enum MountOption {
    /// The filesystem name.
    FsName(String),
    /// The filesystem subtype.
    Subtype(String),
    /// Unmount when the process exits.
    AutoUnmount,
    /// Let the kernel check permissions.
    DefaultPermissions,
    /// Mount read-only.
    ReadOnly,
    /// Mount for reading and writing.
    ReadWrite,
    /// Another option, by its text.
    Custom(String),
}

/// Who may access a mount.
#[derive(Copy, Clone, Debug, PartialEq, Eq, Structural)]
pub enum MountAcl {
    /// Everyone.
    All,
    /// The user who mounted it.
    Owner,
}

/// The settings of a mount call.
#[derive(Debug)]
pub struct MountSettings {
    /// The options, in order.
    pub mount_options: Vec<MountOption>,
    /// Who may access the mount.
    pub acl: MountAcl,
}

/// What a mount option says.
#[verifier::ext_equal]
pub enum OptionModel {
    FsName(Seq<char>),
    Subtype(Seq<char>),
    AutoUnmount,
    DefaultPermissions,
    ReadOnly,
    ReadWrite,
    Custom(Seq<char>),
}

impl View for MountOption {
    type V = OptionModel;

    open spec fn view(&self) -> OptionModel {
        match self {
            MountOption::FsName(name) => OptionModel::FsName(name@),
            MountOption::Subtype(subtype) => OptionModel::Subtype(subtype@),
            MountOption::AutoUnmount => OptionModel::AutoUnmount,
            MountOption::DefaultPermissions => OptionModel::DefaultPermissions,
            MountOption::ReadOnly => OptionModel::ReadOnly,
            MountOption::ReadWrite => OptionModel::ReadWrite,
            MountOption::Custom(text) => OptionModel::Custom(text@),
        }
    }
}

impl MountSettings {
    /// What the options say.
    pub open spec fn options(self) -> Seq<OptionModel> {
        self.mount_options@.map_values(|option: MountOption| option@)
    }
}

/// One option, if it is wanted.
pub open spec fn wanted(condition: bool, option: OptionModel) -> Seq<OptionModel> {
    if condition {
        seq![option]
    } else {
        Seq::empty()
    }
}

impl FuserMountOptions {
    /// The options of a mount call, in order.
    pub open spec fn option_list(self) -> Seq<OptionModel> {
        seq![OptionModel::FsName(self.fs_name@), OptionModel::Subtype(self.subtype@)] + wanted(
            self.auto_unmount && self.allow_other,
            OptionModel::AutoUnmount,
        ) + wanted(self.default_permissions, OptionModel::DefaultPermissions) + wanted(
            self.read_only,
            OptionModel::ReadOnly,
        ) + wanted(!self.read_only, OptionModel::ReadWrite) + wanted(
            self.direct_io,
            OptionModel::Custom("direct_io"@),
        )
    }

    /// Build `FuserMountOptions` from a `MountConfig`.
    pub fn from_mount_config(cfg: &MountConfig) -> (options: Self)
        ensures
            options.fs_name@ == cfg.fs_name@,
            options.subtype@ == cfg.subtype@,
            options.auto_unmount == cfg.auto_unmount,
            options.default_permissions == cfg.default_permissions,
            options.read_only == cfg.read_only,
            options.direct_io == cfg.direct_io,
            !options.allow_other,
    {
        FuserMountOptions {
            fs_name: cfg.fs_name.clone(),
            subtype: cfg.subtype.clone(),
            auto_unmount: cfg.auto_unmount,
            default_permissions: cfg.default_permissions,
            read_only: cfg.read_only,
            direct_io: cfg.direct_io,
            allow_other: false,
        }
    }

    /// The settings of the mount call.
    ///
    /// Unmounting on exit is refused by the mount helper unless others may
    /// access the mount, so that option is left out where they may not; the
    /// mount still ends with its session.
    pub fn to_fuser_config(&self) -> (settings: MountSettings)
        ensures
            settings.options() == self.option_list(),
            settings.acl == (if self.allow_other {
                MountAcl::All
            } else {
                MountAcl::Owner
            }),
    {
        let mut mount_options: Vec<MountOption> = Vec::new();
        mount_options.push(MountOption::FsName(self.fs_name.clone()));
        mount_options.push(MountOption::Subtype(self.subtype.clone()));
        if self.auto_unmount && self.allow_other {
            mount_options.push(MountOption::AutoUnmount);
        }
        if self.default_permissions {
            mount_options.push(MountOption::DefaultPermissions);
        }
        if self.read_only {
            mount_options.push(MountOption::ReadOnly);
        } else {
            mount_options.push(MountOption::ReadWrite);
        }
        if self.direct_io {
            mount_options.push(MountOption::Custom("direct_io".to_string()));
        }
        let acl = if self.allow_other {
            MountAcl::All
        } else {
            MountAcl::Owner
        };
        let settings = MountSettings { mount_options, acl };
        assert(settings.options() =~= self.option_list());
        settings
    }
}

/// A mount is either read-only or writable, and unmounts on exit only if others
/// may access it.
pub proof fn mount_options_are_coherent(options: FuserMountOptions)
    ensures
        options.option_list().contains(OptionModel::ReadOnly) <==> options.read_only,
        options.option_list().contains(OptionModel::ReadWrite) <==> !options.read_only,
        options.option_list().contains(OptionModel::AutoUnmount) <==> options.auto_unmount
            && options.allow_other,
{
    let named = seq![OptionModel::FsName(options.fs_name@), OptionModel::Subtype(options.subtype@)];
    let exit = wanted(options.auto_unmount && options.allow_other, OptionModel::AutoUnmount);
    let checked = wanted(options.default_permissions, OptionModel::DefaultPermissions);
    let fixed = wanted(options.read_only, OptionModel::ReadOnly);
    let open = wanted(!options.read_only, OptionModel::ReadWrite);
    let direct = wanted(options.direct_io, OptionModel::Custom("direct_io"@));
    lemma_contains_in_parts(named, exit, checked, fixed, open, direct, OptionModel::ReadOnly);
    lemma_contains_in_parts(named, exit, checked, fixed, open, direct, OptionModel::ReadWrite);
    lemma_contains_in_parts(named, exit, checked, fixed, open, direct, OptionModel::AutoUnmount);
    if options.read_only {
        assert(fixed[0] == OptionModel::ReadOnly);
    } else {
        assert(open[0] == OptionModel::ReadWrite);
    }
    if options.auto_unmount && options.allow_other {
        assert(exit[0] == OptionModel::AutoUnmount);
    }
}

proof fn lemma_contains_in_parts(
    a: Seq<OptionModel>,
    b: Seq<OptionModel>,
    c: Seq<OptionModel>,
    d: Seq<OptionModel>,
    e: Seq<OptionModel>,
    f: Seq<OptionModel>,
    option: OptionModel,
)
    ensures
        (a + b + c + d + e + f).contains(option) <==> a.contains(option) || b.contains(option)
            || c.contains(option) || d.contains(option) || e.contains(option) || f.contains(option),
{
    lemma_seq_concat_contains_all_elements(a, b, option);
    lemma_seq_concat_contains_all_elements(a + b, c, option);
    lemma_seq_concat_contains_all_elements(a + b + c, d, option);
    lemma_seq_concat_contains_all_elements(a + b + c + d, e, option);
    lemma_seq_concat_contains_all_elements(a + b + c + d + e, f, option);
}

/// A mount is asked for by its own name and subtype, and for the kernel's
/// permission checks and direct I/O exactly if they are wanted.
pub proof fn mounts_are_asked_for_what_is_wanted(options: FuserMountOptions, other: OptionModel)
    ensures
        options.option_list().contains(other) <==> match other {
            OptionModel::FsName(name) => name == options.fs_name@,
            OptionModel::Subtype(subtype) => subtype == options.subtype@,
            OptionModel::AutoUnmount => options.auto_unmount && options.allow_other,
            OptionModel::DefaultPermissions => options.default_permissions,
            OptionModel::ReadOnly => options.read_only,
            OptionModel::ReadWrite => !options.read_only,
            OptionModel::Custom(text) => options.direct_io && text == "direct_io"@,
        },
{
    mount_options_are_coherent(options);
    let named = seq![OptionModel::FsName(options.fs_name@), OptionModel::Subtype(options.subtype@)];
    let exit = wanted(options.auto_unmount && options.allow_other, OptionModel::AutoUnmount);
    let checked = wanted(options.default_permissions, OptionModel::DefaultPermissions);
    let fixed = wanted(options.read_only, OptionModel::ReadOnly);
    let open = wanted(!options.read_only, OptionModel::ReadWrite);
    let direct = wanted(options.direct_io, OptionModel::Custom("direct_io"@));
    lemma_contains_in_parts(named, exit, checked, fixed, open, direct, other);
    assert(named[0] == OptionModel::FsName(options.fs_name@));
    assert(named[1] == OptionModel::Subtype(options.subtype@));
    if options.default_permissions {
        assert(checked[0] == OptionModel::DefaultPermissions);
    }
    if options.direct_io {
        assert(direct[0] == OptionModel::Custom("direct_io"@));
    }
}

/// No option is asked for twice.
pub proof fn options_are_asked_for_once(options: FuserMountOptions)
    ensures
        ({
            let flag = |on: bool|
                if on {
                    1int
                } else {
                    0int
                };
            &&& options.option_list().len() == 3 + flag(
                options.auto_unmount && options.allow_other,
            ) + flag(options.default_permissions) + flag(options.direct_io)
            &&& options.option_list()[0] == OptionModel::FsName(options.fs_name@)
            &&& options.option_list()[1] == OptionModel::Subtype(options.subtype@)
        }),
{
}

} // verus!
