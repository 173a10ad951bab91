//! This module implements the directory of a process in the procfs.

use vstd::prelude::*;

use crate::errno::{Errno, EINVAL};
use crate::file::{Gid, Mode, Timestamp, Uid, ROOT_GID, ROOT_UID};
use crate::path::Name;
use crate::pid_list::Pid;

verus! {

/// The content of a file.
#[derive(Debug)]
pub enum FileContent {
    /// The file is a regular file.
    Regular,
    /// The file is a directory, with the given entries.
    Directory(Vec<Name>),
}

/// A file system that lives in the kernel's memory, with the names of its
/// nodes.
#[derive(Debug)]
pub struct KernFS {
    pub nodes: Vec<Name>,
}

/// The directory of a process.
#[derive(Debug)]
pub struct ProcDir {
    /// The PID of the process.
    pid: Pid,
    /// The content of the directory. This will always be a Directory variant.
    content: FileContent,
}

impl ProcDir {
    /// The PID of the process.
    pub closed spec fn pid(&self) -> Pid {
        self.pid
    }

    /// The content of the directory.
    pub closed spec fn content(&self) -> FileContent {
        self.content
    }

    /// The content is that of a directory.
    pub open spec fn wf(&self) -> bool {
        self.content() is Directory
    }

    /// Creates a new instance for the process with the given PID `pid`.
    /// The function adds every node of the directory to the given kernfs. A
    /// process has no node for now, so the directory is empty.
    pub fn new(pid: Pid, _fs: &mut KernFS) -> (res: Result<Self, Errno>)
        ensures
            *final(_fs) == *old(_fs),
            res matches Ok(dir) && {
                &&& dir.wf()
                &&& dir.pid() == pid
                &&& dir.content()->Directory_0@ == Seq::<Name>::empty()
            },
    {
        let entries: Vec<Name> = Vec::new();
        Ok(Self { pid, content: FileContent::Directory(entries) })
    }

    /// Returns the PID of the process.
    pub fn get_pid(&self) -> (res: Pid)
        ensures
            res == self.pid(),
    {
        self.pid
    }

    /// Returns the number of hard links to the directory.
    pub fn get_hard_links_count(&self) -> (res: u16)
        ensures
            res == 1,
    {
        1
    }

    /// The number of hard links cannot be changed: this function does nothing.
    pub fn set_hard_links_count(&mut self, _value: u16)
        ensures
            *final(self) == *old(self),
    {
    }

    /// Returns the mode of the directory.
    pub fn get_mode(&self) -> (res: Mode)
        ensures
            res == 0o777,
    {
        0o777
    }

    /// The mode cannot be changed: this function does nothing.
    pub fn set_mode(&mut self, _value: Mode)
        ensures
            *final(self) == *old(self),
    {
    }

    /// Returns the ID of the directory's user owner.
    pub fn get_uid(&self) -> (res: Uid)
        ensures
            res == ROOT_UID,
    {
        ROOT_UID
    }

    /// The user owner cannot be changed: this function does nothing.
    pub fn set_uid(&mut self, _value: Uid)
        ensures
            *final(self) == *old(self),
    {
    }

    /// Returns the ID of the directory's group owner.
    pub fn get_gid(&self) -> (res: Gid)
        ensures
            res == ROOT_GID,
    {
        ROOT_GID
    }

    /// The group owner cannot be changed: this function does nothing.
    pub fn set_gid(&mut self, _value: Gid)
        ensures
            *final(self) == *old(self),
    {
    }

    /// Returns the time of the last access.
    pub fn get_atime(&self) -> (res: Timestamp)
        ensures
            res == 0,
    {
        0
    }

    /// The time of the last access cannot be changed: this function does nothing.
    pub fn set_atime(&mut self, _value: Timestamp)
        ensures
            *final(self) == *old(self),
    {
    }

    /// Returns the time of the last change of metadata.
    pub fn get_ctime(&self) -> (res: Timestamp)
        ensures
            res == 0,
    {
        0
    }

    /// The time of the last change of metadata cannot be changed: this function does nothing.
    pub fn set_ctime(&mut self, _value: Timestamp)
        ensures
            *final(self) == *old(self),
    {
    }

    /// Returns the time of the last change of content.
    pub fn get_mtime(&self) -> (res: Timestamp)
        ensures
            res == 0,
    {
        0
    }

    /// The time of the last change of content cannot be changed: this function does nothing.
    pub fn set_mtime(&mut self, _value: Timestamp)
        ensures
            *final(self) == *old(self),
    {
    }

    /// Returns the content of the directory.
    pub fn get_content(&self) -> (res: &FileContent)
        ensures
            *res == self.content(),
    {
        &self.content
    }

    /// The content cannot be changed: this function does nothing.
    pub fn set_content(&mut self, _value: FileContent)
        ensures
            *final(self) == *old(self),
    {
    }

    /// Returns the size of the directory's content in bytes.
    pub fn get_size(&self) -> (res: u64)
        ensures
            res == 0,
    {
        0
    }

    /// A directory cannot be read as a file: this function always fails.
    pub fn read(&mut self, _offset: u64, _buff: &mut [u8]) -> (res: Result<u64, Errno>)
        ensures
            res == Err::<u64, Errno>(EINVAL),
            *final(self) == *old(self),
            final(_buff)@ == old(_buff)@,
    {
        Err(EINVAL)
    }

    /// A directory cannot be written as a file: this function always fails.
    pub fn write(&mut self, _offset: u64, _buff: &[u8]) -> (res: Result<u64, Errno>)
        ensures
            res == Err::<u64, Errno>(EINVAL),
            *final(self) == *old(self),
    {
        Err(EINVAL)
    }
}

} // verus!
