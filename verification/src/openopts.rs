use vstd::prelude::*;

use crate::errno::Errno;
use crate::flags::AccessMode;
use crate::flags::LookupFlags;
use crate::flags::OpenFlags;

verus! {

/// A builder for the open flags of a beneath-confined open, analogous to
/// the standard open-options builder. Each setter consumes and returns
/// the builder; `flags` computes the final flag set.
#[derive(Clone, Copy, Debug)]
pub struct OpenOptions {
    pub read: bool,
    pub write: bool,
    pub create: bool,
    pub create_new: bool,
    pub append: bool,
    pub truncate: bool,
    pub custom_flags: OpenFlags,
    pub mode: u32,
    pub lookup_flags: LookupFlags,
}

/// What `flags` computes from a builder.
///
/// Writing (or appending) opens read-write or write-only; `create_new`
/// demands exclusive creation and makes the plain create and truncate
/// options irrelevant; appending adds the append bit. A read-only open
/// combined with any creation or truncation option is `EINVAL`, as is a
/// request with neither read nor write access. The caller's custom
/// flags contribute everything but their access mode.
pub open spec fn spec_open_options_flags(o: OpenOptions) -> Result<OpenFlags, Errno> {
    let c = o.custom_flags;
    if o.write || o.append {
        let access = if o.read {
            AccessMode::ReadWrite
        } else {
            AccessMode::WriteOnly
        };
        if o.create_new {
            Ok(
                OpenFlags {
                    access,
                    create: true,
                    create_excl: true,
                    append: c.append || o.append,
                    ..c
                },
            )
        } else {
            Ok(
                OpenFlags {
                    access,
                    create: c.create || o.create,
                    truncate: c.truncate || o.truncate,
                    append: c.append || o.append,
                    ..c
                },
            )
        }
    } else if o.read {
        if o.create_new || o.create || o.truncate {
            Err(Errno::EINVAL)
        } else {
            Ok(OpenFlags { access: AccessMode::ReadOnly, ..c })
        }
    } else {
        Err(Errno::EINVAL)
    }
}

impl OpenOptions {
    /// A builder with every option off, mode `0o666`, and no lookup
    /// flags.
    pub fn new() -> (r: OpenOptions)
        ensures
            !r.read && !r.write && !r.create && !r.create_new && !r.append && !r.truncate,
            r.custom_flags == crate::flags::spec_read_only_flags(),
            r.mode == 0o666u32,
            r.lookup_flags == (LookupFlags { no_symlinks: false, in_root: false, no_xdev: false }),
    {
        OpenOptions {
            read: false,
            write: false,
            create: false,
            create_new: false,
            append: false,
            truncate: false,
            custom_flags: OpenFlags::read_only(),
            mode: 0o666,
            lookup_flags: LookupFlags::empty(),
        }
    }

    /// Enables or disables read access.
    pub fn read(self, read: bool) -> (r: Self)
        ensures
            r == (OpenOptions { read, ..self }),
    {
        OpenOptions { read, ..self }
    }

    /// Enables or disables write access.
    pub fn write(self, write: bool) -> (r: Self)
        ensures
            r == (OpenOptions { write, ..self }),
    {
        OpenOptions { write, ..self }
    }

    /// Creates the file if it does not exist.
    pub fn create(self, create: bool) -> (r: Self)
        ensures
            r == (OpenOptions { create, ..self }),
    {
        OpenOptions { create, ..self }
    }

    /// Creates a new file, failing if it already exists. Enabling this
    /// makes the plain create and truncate options irrelevant.
    pub fn create_new(self, create_new: bool) -> (r: Self)
        ensures
            r == (OpenOptions { create_new, ..self }),
    {
        OpenOptions { create_new, ..self }
    }

    /// Enables append mode.
    pub fn append(self, append: bool) -> (r: Self)
        ensures
            r == (OpenOptions { append, ..self }),
    {
        OpenOptions { append, ..self }
    }

    /// Truncates the file while opening, if it exists.
    pub fn truncate(self, truncate: bool) -> (r: Self)
        ensures
            r == (OpenOptions { truncate, ..self }),
    {
        OpenOptions { truncate, ..self }
    }

    /// Sets the mode a created file gets; the system masks out the
    /// process umask.
    pub fn mode(self, mode: u32) -> (r: Self)
        ensures
            r == (OpenOptions { mode, ..self }),
    {
        OpenOptions { mode, ..self }
    }

    /// Passes extra flags for the open; their access-mode part is
    /// ignored.
    pub fn custom_flags(self, custom_flags: OpenFlags) -> (r: Self)
        ensures
            r == (OpenOptions { custom_flags, ..self }),
    {
        OpenOptions { custom_flags, ..self }
    }

    /// Sets the lookup flags of the resolution.
    pub fn lookup_flags(self, lookup_flags: LookupFlags) -> (r: Self)
        ensures
            r == (OpenOptions { lookup_flags, ..self }),
    {
        OpenOptions { lookup_flags, ..self }
    }

    /// Computes the flag set these options ask for, exactly as
    /// `spec_open_options_flags` describes.
    pub fn flags(&self) -> (r: Result<OpenFlags, Errno>)
        ensures
            r == spec_open_options_flags(*self),
    {
        let c = self.custom_flags;
        if self.write || self.append {
            let access = if self.read {
                AccessMode::ReadWrite
            } else {
                AccessMode::WriteOnly
            };
            if self.create_new {
                Ok(
                    OpenFlags {
                        access,
                        create: true,
                        create_excl: true,
                        append: c.append || self.append,
                        ..c
                    },
                )
            } else {
                Ok(
                    OpenFlags {
                        access,
                        create: c.create || self.create,
                        truncate: c.truncate || self.truncate,
                        append: c.append || self.append,
                        ..c
                    },
                )
            }
        } else if self.read {
            if self.create_new || self.create || self.truncate {
                Err(Errno::EINVAL)
            } else {
                Ok(OpenFlags { access: AccessMode::ReadOnly, ..c })
            }
        } else {
            Err(Errno::EINVAL)
        }
    }
}

} // verus!
