use vstd::prelude::*;

verus! {

/// Capability tag of a file handle: which operations it permits.
pub trait OpenMode: Sized {

}

/// Capability to read node fields through a handle.
pub trait OpenModeRead: OpenMode {

}

/// Capability to write node fields through a handle.
pub trait OpenModeWrite: OpenMode {

}

/// A handle opened for reading only.
#[derive(Debug)]
pub struct ReadableFile();

impl OpenMode for ReadableFile {

}

impl OpenModeRead for ReadableFile {

}

/// A handle opened for writing only.
#[derive(Debug)]
pub struct WriteableFile();

impl OpenMode for WriteableFile {

}

impl OpenModeWrite for WriteableFile {

}

/// A handle opened for both reading and writing.
#[derive(Debug)]
pub struct ModifiableFile();

impl OpenMode for ModifiableFile {

}

impl OpenModeRead for ModifiableFile {

}

impl OpenModeWrite for ModifiableFile {

}

/// A handle whose mode was chosen at run time; it is treated as having
/// both capabilities.
#[derive(Debug)]
pub struct UnknownFile {}

impl OpenMode for UnknownFile {

}

impl OpenModeRead for UnknownFile {

}

impl OpenModeWrite for UnknownFile {

}

} // verus!
