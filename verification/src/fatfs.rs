//! The filesystem service: an external service conforming to the
//! resource-table and hostcall pattern.
//!
//! The service backs one filesystem per execution thread and exposes open
//! (optionally create), read, write-then-flush and close, each keyed by a
//! handle drawn from that thread's [`ResourceTable`]. The store itself is a
//! flat map from file name to contents; the concrete on-disk image format
//! behind it is an external collaborator of the runtime, out of this
//! subsystem's scope.

use vstd::prelude::*;

use crate::resource::ResourceTable;
use crate::resource::slot_live;
use crate::resource::spec_close;

verus! {

/// A file-descriptor-like handle handed across the hostcall boundary.
pub type Fd = u32;

/// A byte count.
pub type Size = usize;

/// Flags for [`fatfs_open`]: with `create` set, open creates the file if it
/// is absent; without it, open fails if the file is missing.
#[derive(Clone, Copy, Debug, PartialEq, Eq, Structural)]
pub struct OpenFlags {
    pub create: bool,
}

impl OpenFlags {
    /// Open an existing file only.
    pub fn empty() -> (r: OpenFlags)
        ensures
            !r.create,
    {
        OpenFlags { create: false }
    }

    /// Create the file if it is absent.
    pub fn o_creat() -> (r: OpenFlags)
        ensures
            r.create,
    {
        OpenFlags { create: true }
    }
}

/// One stored file: its name and its contents.
pub struct StoredFile {
    pub name: String,
    pub data: Vec<u8>,
}

/// One open handle: which stored file it addresses and the read/write
/// cursor into it.
#[derive(Clone, Copy, Debug, PartialEq, Eq, Structural)]
pub struct OpenFile {
    pub file_index: usize,
    pub cursor: usize,
}

/// Whether a file of the given name is stored.
pub open spec fn file_exists(files: Seq<(Seq<char>, Seq<u8>)>, name: Seq<char>) -> bool {
    exists|i: int| 0 <= i < files.len() && (#[trigger] files[i]).0 == name
}

/// File contents after writing `buf` at `cursor`: bytes before the cursor
/// are kept, the written range is replaced, and whatever lay beyond the
/// written range is kept. The contents never shrink.
pub open spec fn spec_write_data(data: Seq<u8>, cursor: int, buf: Seq<u8>) -> Seq<u8> {
    data.take(cursor) + buf + if data.len() > cursor + buf.len() {
        data.skip(cursor + buf.len())
    } else {
        Seq::empty()
    }
}

/// The filesystem service state for one execution thread: the stored files
/// and the handle table its hostcalls draw from.
pub struct FatfsService {
    files: Vec<StoredFile>,
    table: ResourceTable<OpenFile>,
}

impl FatfsService {
    /// The stored files, as (name, contents) pairs.
    pub closed spec fn files_view(&self) -> Seq<(Seq<char>, Seq<u8>)> {
        self.files@.map(|i: int, f: StoredFile| (f.name@, f.data@))
    }

    /// The handle table: a handle is a position, a closed handle a tombstone.
    pub closed spec fn table_view(&self) -> Seq<Option<OpenFile>> {
        self.table@
    }

    /// Internal consistency: file names are unique, and every live handle
    /// addresses a stored file with its cursor inside the contents.
    pub open spec fn wf(&self) -> bool {
        &&& (forall|i: int, j: int|
            0 <= i < self.files_view().len() && 0 <= j < self.files_view().len() && i != j
                ==> (#[trigger] self.files_view()[i]).0 != (#[trigger] self.files_view()[j]).0)
        &&& (forall|h: int|
            0 <= h < self.table_view().len() && self.table_view()[h] is Some ==> {
                let of = (#[trigger] self.table_view()[h])->0;
                &&& of.file_index < self.files_view().len()
                &&& of.cursor <= self.files_view()[of.file_index as int].1.len()
            })
    }

    /// An empty filesystem: no files, no handles yet.
    pub fn new() -> (r: FatfsService)
        ensures
            r.wf(),
            r.files_view() == Seq::<(Seq<char>, Seq<u8>)>::empty(),
            r.table_view() == Seq::<Option<OpenFile>>::empty(),
    {
        let r = FatfsService { files: Vec::new(), table: ResourceTable::new() };
        proof {
            assert(r.files_view() =~= Seq::<(Seq<char>, Seq<u8>)>::empty());
        }
        r
    }

    /// How many handles this service's table has ever assigned, closed ones
    /// included.
    pub fn table_len(&self) -> (n: usize)
        ensures
            n == self.table_view().len(),
    {
        self.table.len()
    }

    /// The position of the stored file named `name`, if any.
    fn find_file(&self, name: &String) -> (r: Option<usize>)
        ensures
            match r {
                Some(i) => i < self.files_view().len() && self.files_view()[i as int].0 == name@,
                None => forall|j: int|
                    0 <= j < self.files_view().len() ==> (#[trigger] self.files_view()[j]).0
                        != name@,
            },
    {
        let n = self.files.len();
        let mut i: usize = 0;
        while i < n
            invariant
                i <= n,
                n == self.files@.len(),
                forall|j: int| 0 <= j < i ==> (#[trigger] self.files_view()[j]).0 != name@,
            decreases n - i,
        {
            if self.files[i].name == *name {
                return Some(i);
            }
            i = i + 1;
        }
        None
    }
}

/// Opens a file, creating it first when the flags say so and it is absent.
/// Returns a fresh handle with its cursor at the start; fails if and only if
/// the file is absent and the create flag is not given, leaving the service
/// untouched.
pub fn fatfs_open(svc: &mut FatfsService, p: &str, flags: OpenFlags) -> (r: Result<Fd, ()>)
    requires
        old(svc).wf(),
        old(svc).table_view().len() < u32::MAX,
        old(svc).files_view().len() < usize::MAX,
    ensures
        final(svc).wf(),
        match r {
            Ok(fd) => {
                &&& fd as int == old(svc).table_view().len()
                &&& final(svc).table_view().len() == old(svc).table_view().len() + 1
                &&& final(svc).table_view()[fd as int] is Some
                &&& ({
                    let of = final(svc).table_view()[fd as int]->0;
                    &&& of.cursor == 0
                    &&& of.file_index < final(svc).files_view().len()
                    &&& final(svc).files_view()[of.file_index as int].0 == p@
                })
                &&& (forall|h: int|
                    0 <= h < old(svc).table_view().len() ==> final(svc).table_view()[h] == old(
                        svc,
                    ).table_view()[h])
                &&& (if file_exists(old(svc).files_view(), p@) {
                    final(svc).files_view() == old(svc).files_view()
                } else {
                    flags.create && final(svc).files_view() == old(svc).files_view().push(
                        (p@, Seq::<u8>::empty()),
                    )
                })
            },
            Err(()) => {
                &&& !flags.create
                &&& !file_exists(old(svc).files_view(), p@)
                &&& final(svc).files_view() == old(svc).files_view()
                &&& final(svc).table_view() == old(svc).table_view()
            },
        },
{
    let pname: String = p.to_owned();
    let file_index: usize = match svc.find_file(&pname) {
        Some(i) => i,
        None => {
            if !flags.create {
                return Err(());
            }
            let i = svc.files.len();
            svc.files.push(StoredFile { name: pname, data: Vec::new() });
            proof {
                assert(svc.files_view() =~= old(svc).files_view().push((p@, Seq::<u8>::empty())));
            }
            i
        },
    };
    let fd = svc.table.allocate(OpenFile { file_index, cursor: 0 });
    Ok(fd as Fd)
}

/// Reads up to `len` bytes from the handle's cursor, advancing the cursor by
/// what was read; at end of file the result is empty. Fails if and only if
/// the handle is not live ("not found"), leaving the service untouched.
pub fn fatfs_read(svc: &mut FatfsService, fd: Fd, len: usize) -> (r: Result<Vec<u8>, ()>)
    requires
        old(svc).wf(),
    ensures
        final(svc).wf(),
        final(svc).files_view() == old(svc).files_view(),
        match r {
            Ok(bytes) => {
                &&& slot_live(old(svc).table_view(), fd as int)
                &&& ({
                    let of = old(svc).table_view()[fd as int]->0;
                    let data = old(svc).files_view()[of.file_index as int].1;
                    let k = vstd::math::min(len as int, data.len() - of.cursor);
                    &&& bytes@ == data.subrange(of.cursor as int, of.cursor + k)
                    &&& final(svc).table_view() == old(svc).table_view().update(
                        fd as int,
                        Some(OpenFile { file_index: of.file_index, cursor: (of.cursor + k) as usize }),
                    )
                })
            },
            Err(()) => {
                &&& !slot_live(old(svc).table_view(), fd as int)
                &&& final(svc).table_view() == old(svc).table_view()
            },
        },
{
    let of: OpenFile = match svc.table.get(fd as usize) {
        Some(of) => *of,
        None => {
            return Err(());
        },
    };
    let data_len = svc.files[of.file_index].data.len();
    let remaining = data_len - of.cursor;
    let k = if len < remaining {
        len
    } else {
        remaining
    };
    let mut bytes: Vec<u8> = Vec::new();
    let mut j: usize = 0;
    while j < k
        invariant
            j <= k,
            of.cursor + k <= usize::MAX,
            of.cursor + k <= svc.files@[of.file_index as int].data@.len(),
            of.file_index < svc.files@.len(),
            bytes@ == svc.files@[of.file_index as int].data@.subrange(
                of.cursor as int,
                of.cursor + j,
            ),
        decreases k - j,
    {
        let b = svc.files[of.file_index].data[of.cursor + j];
        bytes.push(b);
        proof {
            assert(bytes@ =~= svc.files@[of.file_index as int].data@.subrange(
                of.cursor as int,
                of.cursor + j + 1,
            ));
        }
        j = j + 1;
    }
    svc.table.replace(fd as usize, OpenFile { file_index: of.file_index, cursor: of.cursor + k });
    proof {
        assert(final(svc).files_view() =~= old(svc).files_view());
    }
    Ok(bytes)
}

/// Writes the whole buffer at the handle's cursor and flushes, advancing the
/// cursor past what was written and returning the byte count. Fails if and
/// only if the handle is not live ("not found") or the write would run past
/// the largest representable offset, leaving the service untouched.
pub fn fatfs_write(svc: &mut FatfsService, fd: Fd, buf: &Vec<u8>) -> (r: Result<Size, ()>)
    requires
        old(svc).wf(),
    ensures
        final(svc).wf(),
        final(svc).table_view().len() == old(svc).table_view().len(),
        match r {
            Ok(n) => {
                &&& n == buf@.len()
                &&& slot_live(old(svc).table_view(), fd as int)
                &&& ({
                    let of = old(svc).table_view()[fd as int]->0;
                    let name = old(svc).files_view()[of.file_index as int].0;
                    let data = old(svc).files_view()[of.file_index as int].1;
                    &&& final(svc).files_view() == old(svc).files_view().update(
                        of.file_index as int,
                        (name, spec_write_data(data, of.cursor as int, buf@)),
                    )
                    &&& final(svc).table_view() == old(svc).table_view().update(
                        fd as int,
                        Some(
                            OpenFile {
                                file_index: of.file_index,
                                cursor: (of.cursor + buf@.len()) as usize,
                            },
                        ),
                    )
                })
            },
            Err(()) => {
                &&& (!slot_live(old(svc).table_view(), fd as int) || old(svc).table_view()[
                    fd as int]->0.cursor + buf@.len() > usize::MAX)
                &&& final(svc).files_view() == old(svc).files_view()
                &&& final(svc).table_view() == old(svc).table_view()
            },
        },
{
    let of: OpenFile = match svc.table.get(fd as usize) {
        Some(of) => *of,
        None => {
            return Err(());
        },
    };
    if buf.len() > usize::MAX - of.cursor {
        return Err(());
    }
    let end = of.cursor + buf.len();
    let ghost old_data = svc.files@[of.file_index as int].data@;
    let mut new_data: Vec<u8> = Vec::new();
    let mut j: usize = 0;
    while j < of.cursor
        invariant
            j <= of.cursor,
            of.file_index < svc.files@.len(),
            of.cursor <= svc.files@[of.file_index as int].data@.len(),
            old_data == svc.files@[of.file_index as int].data@,
            new_data@ == old_data.subrange(0, j as int),
        decreases of.cursor - j,
    {
        let b = svc.files[of.file_index].data[j];
        new_data.push(b);
        proof {
            assert(new_data@ =~= old_data.subrange(0, j + 1));
        }
        j = j + 1;
    }
    let mut j: usize = 0;
    while j < buf.len()
        invariant
            j <= buf@.len(),
            new_data@ == old_data.subrange(0, of.cursor as int) + buf@.subrange(0, j as int),
        decreases buf@.len() - j,
    {
        let b = buf[j];
        new_data.push(b);
        proof {
            assert(new_data@ =~= old_data.subrange(0, of.cursor as int) + buf@.subrange(
                0,
                j + 1,
            ));
        }
        j = j + 1;
    }
    let data_len = svc.files[of.file_index].data.len();
    let mut j: usize = end;
    while j < data_len
        invariant
            end <= j <= vstd::math::max(data_len as int, end as int),
            data_len == old_data.len(),
            of.file_index < svc.files@.len(),
            old_data == svc.files@[of.file_index as int].data@,
            new_data@ == old_data.subrange(0, of.cursor as int) + buf@ + (if j > end {
                old_data.subrange(end as int, j as int)
            } else {
                Seq::<u8>::empty()
            }),
        decreases data_len - j,
    {
        let b = svc.files[of.file_index].data[j];
        new_data.push(b);
        proof {
            assert(new_data@ =~= old_data.subrange(0, of.cursor as int) + buf@
                + old_data.subrange(end as int, j + 1));
        }
        j = j + 1;
    }
    proof {
        assert(buf@.subrange(0, buf@.len() as int) =~= buf@);
        assert(new_data@ =~= spec_write_data(old_data, of.cursor as int, buf@));
    }
    svc.files[of.file_index].data = new_data;
    svc.table.replace(fd as usize, OpenFile { file_index: of.file_index, cursor: end });
    proof {
        let of0 = old(svc).table_view()[fd as int]->0;
        let name = old(svc).files_view()[of0.file_index as int].0;
        let data = old(svc).files_view()[of0.file_index as int].1;
        assert(final(svc).files_view() =~= old(svc).files_view().update(
            of0.file_index as int,
            (name, spec_write_data(data, of0.cursor as int, buf@)),
        ));
    }
    Ok(buf.len())
}

/// Closes a handle: swaps the slot out to a tombstone so the handle is never
/// reassigned. Fails if and only if the handle is not live — closing twice
/// fails — leaving the service untouched.
pub fn fatfs_close(svc: &mut FatfsService, fd: Fd) -> (r: Result<(), ()>)
    requires
        old(svc).wf(),
    ensures
        final(svc).wf(),
        final(svc).files_view() == old(svc).files_view(),
        final(svc).table_view() == spec_close(old(svc).table_view(), fd as int),
        match r {
            Ok(()) => slot_live(old(svc).table_view(), fd as int),
            Err(()) => !slot_live(old(svc).table_view(), fd as int) && final(svc).table_view()
                == old(svc).table_view(),
        },
{
    let r = match svc.table.close(fd as usize) {
        Some(_) => Ok(()),
        None => Err(()),
    };
    proof {
        assert(final(svc).files_view() =~= old(svc).files_view());
    }
    r
}

/// The filesystem image path the service works against: the configured path
/// when the runtime supplies one, and the built-in default otherwise.
pub fn get_fs_image_path(configured: Option<String>) -> (r: String)
    ensures
        match configured {
            Some(s) => r@ == s@,
            None => r@ == "fs_images/fatfs.img"@,
        },
{
    match configured {
        Some(s) => s,
        None => "fs_images/fatfs.img".to_owned(),
    }
}

} // verus!
