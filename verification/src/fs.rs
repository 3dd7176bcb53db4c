//! Connections to files.
use tokio::fs::OpenOptions;
use vstd::prelude::*;

verus! {

/// `tokio::fs::OpenOptions`, the settings with which a file is opened.
#[verifier::external_type_specification]
#[verifier::external_body]
pub struct ExOpenOptions(tokio::fs::OpenOptions);

/// A setting of `tokio::fs::OpenOptions` that is on or off.
pub enum OpenFlag {
    /// The file can be read.
    Read,
    /// The file can be written.
    Write,
    /// What is written goes to the end of the file.
    Append,
    /// The file is cut to length 0 when it is opened.
    Truncate,
    /// The file is created if it does not exist.
    Create,
    /// The file is created, and must not exist.
    CreateNew,
}

/// The settings among [`OpenFlag`] that are on.
pub uninterp spec fn open_flags(options: tokio::fs::OpenOptions) -> Set<OpenFlag>;

/// `flags` with `flag` switched on or off.
pub open spec fn switched(flags: Set<OpenFlag>, flag: OpenFlag, on: bool) -> Set<OpenFlag> {
    if on {
        flags.insert(flag)
    } else {
        flags.remove(flag)
    }
}

/// `tokio::fs::OpenOptions::new`: all settings are off.
#[verifier::external_body]
fn new_options() -> (options: OpenOptions)
    ensures
        open_flags(options) == Set::<OpenFlag>::empty(),
{
    OpenOptions::new()
}

/// `tokio::fs::OpenOptions::read`: switches reading on or off, and leaves the other settings.
#[verifier::external_body]
fn set_read(options: &mut OpenOptions, read: bool)
    ensures
        open_flags(*final(options)) == switched(open_flags(*old(options)), OpenFlag::Read, read),
{
    options.read(read);
}

/// `tokio::fs::OpenOptions::write`: switches writing on or off, and leaves the other settings.
#[verifier::external_body]
fn set_write(options: &mut OpenOptions, write: bool)
    ensures
        open_flags(*final(options)) == switched(open_flags(*old(options)), OpenFlag::Write, write),
{
    options.write(write);
}

/// `tokio::fs::OpenOptions::truncate`: switches truncating on or off, and leaves the other
/// settings.
#[verifier::external_body]
fn set_truncate(options: &mut OpenOptions, truncate: bool)
    ensures
        open_flags(*final(options)) == switched(
            open_flags(*old(options)),
            OpenFlag::Truncate,
            truncate,
        ),
{
    options.truncate(truncate);
}

/// `tokio::fs::OpenOptions::create`: switches creating on or off, and leaves the other settings.
#[verifier::external_body]
fn set_create(options: &mut OpenOptions, create: bool)
    ensures
        open_flags(*final(options)) == switched(
            open_flags(*old(options)),
            OpenFlag::Create,
            create,
        ),
{
    options.create(create);
}

/// `tokio::fs::OpenOptions::create_new`: switches creating a new file on or off, and leaves the
/// other settings.
#[verifier::external_body]
fn set_create_new(options: &mut OpenOptions, create_new: bool)
    ensures
        open_flags(*final(options)) == switched(
            open_flags(*old(options)),
            OpenFlag::CreateNew,
            create_new,
        ),
{
    options.create_new(create_new);
}

/// Holds the path of a file and how it is opened.
///
/// Convenience functions exist for the same constructors as exist in the standard library, but for
/// more complicated file options this can be built manually.
pub struct FileConnector<P> {
    pub path: P,
    pub options: OpenOptions,
}

impl<P> FileConnector<P> {
    /// A connector with the same options as `std::fs::File::open`.
    pub fn open(path: P) -> (connector: Self)
        ensures
            connector.path == path,
            open_flags(connector.options) == set![OpenFlag::Read],
    {
        let mut options = new_options();
        set_read(&mut options, true);
        Self { path, options }
    }

    /// A connector with the same options as `std::fs::File::create`.
    pub fn create(path: P) -> (connector: Self)
        ensures
            connector.path == path,
            open_flags(connector.options) == set![
                OpenFlag::Write,
                OpenFlag::Create,
                OpenFlag::Truncate,
            ],
    {
        let mut options = new_options();
        set_write(&mut options, true);
        set_create(&mut options, true);
        set_truncate(&mut options, true);
        Self { path, options }
    }

    /// A connector with the same options as `std::fs::File::create_new`.
    pub fn create_new(path: P) -> (connector: Self)
        ensures
            connector.path == path,
            open_flags(connector.options) == set![
                OpenFlag::Read,
                OpenFlag::Write,
                OpenFlag::CreateNew,
            ],
    {
        let mut options = new_options();
        set_read(&mut options, true);
        set_write(&mut options, true);
        set_create_new(&mut options, true);
        Self { path, options }
    }
}

} // verus!
