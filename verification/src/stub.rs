//! The stub object that answers the game save, system, package and launch
//! interfaces: fixed answers, the sandbox id, and the layout of blob data
//! read back from save containers.
use vstd::prelude::*;
use crate::results::{S_OK, E_FAIL, E_NOTIMPL};
use crate::xasync::{XAsyncBlock, XAsyncStatus, spec_status};
use crate::xpackage::XPackageKind;
use crate::xsystem::{IXSystem, IXSystem2, IXSystem3, IXSystem4, IXSystem5};

verus! {

/// The object that answers the game save, system, package and launch
/// interfaces.
#[derive(Clone, Copy, Debug)]
pub struct XStub;

impl IXSystem for XStub {}

impl IXSystem2 for XStub {}

impl IXSystem3 for XStub {}

impl IXSystem4 for XStub {}

impl IXSystem5 for XStub {}

/// The sandbox id reported, with its closing NUL: `RETAIL`.
pub open spec fn spec_sandbox_id() -> Seq<u8> {
    seq![82u8, 69, 84, 65, 73, 76, 0]
}

/// The remaining quota of every save provider: 16 MiB.
pub const REMAINING_QUOTA: i64 = 16777216;

/// The size in bytes of one blob record (`XGameSaveBlob`): a name pointer,
/// a size padded to 8 bytes, and a data pointer.
pub const XGAME_SAVE_BLOB_SIZE: usize = 24;

/// A save container as the stub describes it: the name doubles as display
/// name; one blob, no size, never modified, nothing to sync.
#[derive(Clone, Debug)]
pub struct XGameSaveContainerInfo {
    pub name: String,
    pub display_name: String,
    pub blob_count: u32,
    pub total_size: u64,
    pub last_modified_time: i64,
    pub needs_sync: bool,
}

/// A package as the stub's package enumeration describes it.
#[derive(Clone, Debug)]
pub struct XPackageDetails {
    pub package_identifier: String,
    pub version: u64,
    pub kind: XPackageKind,
    pub display_name: String,
    pub description: String,
    pub publisher: String,
    pub store_id: String,
    pub installing: bool,
    pub index: u32,
    pub count: u32,
    pub age_restricted: bool,
    pub title_i_d: String,
}

/// Where one blob read back from a container lands in the caller's buffer:
/// its name (with the closing NUL) at `name_offset`, then `size` bytes of
/// data at `data_offset`. Offsets count from the start of the buffer.
#[derive(Clone, Copy, Debug, PartialEq, Eq, Structural)]
pub struct BlobPlacement {
    pub name_offset: usize,
    pub size: u32,
    pub data_offset: usize,
}

/// The size reported for a blob of `len` bytes: its low 32 bits.
pub open spec fn spec_blob_size(len: u64) -> u32 {
    (len % 0x1_0000_0000) as u32
}

/// Where the payload of the first `n` blobs ends: the records of all
/// `count` blobs come first, then each blob's name and data in turn.
pub open spec fn spec_blob_end(count: nat, name_lens: Seq<usize>, lens: Seq<u64>, n: nat) -> int
    decreases n,
{
    if n == 0 {
        count * XGAME_SAVE_BLOB_SIZE
    } else {
        spec_blob_end(count, name_lens, lens, (n - 1) as nat) + name_lens[n - 1] + spec_blob_size(lens[n - 1])
    }
}

proof fn lemma_blob_end_monotonic(count: nat, name_lens: Seq<usize>, lens: Seq<u64>, a: nat, b: nat)
    requires
        a <= b,
    ensures
        spec_blob_end(count, name_lens, lens, a) <= spec_blob_end(count, name_lens, lens, b),
    decreases b,
{
    if a < b {
        lemma_blob_end_monotonic(count, name_lens, lens, a, (b - 1) as nat);
    }
}

impl XStub {
    /// `XSystemGetXboxLiveSandboxId`: writes as many bytes of `RETAIL` and
    /// its closing NUL as the buffer holds; answers `S_OK`.
    pub fn x_system_get_xbox_live_sandbox_id(&self, sandbox_id: &mut Vec<u8>) -> (hr: i32)
        ensures
            hr == S_OK,
            final(sandbox_id)@.len() == old(sandbox_id)@.len(),
            forall|k: int| 0 <= k < final(sandbox_id)@.len() ==> #[trigger] final(sandbox_id)@[k] == (if k < 7 {
                spec_sandbox_id()[k]
            } else {
                old(sandbox_id)@[k]
            }),
    {
        let id: [u8; 7] = [82, 69, 84, 65, 73, 76, 0];
        assert(id@ =~= spec_sandbox_id());
        let n = if sandbox_id.len() < 7 { sandbox_id.len() } else { 7 };
        let mut i: usize = 0;
        while i < n
            invariant
                n <= 7,
                n <= sandbox_id@.len(),
                n == sandbox_id@.len() || n == 7,
                id@ == spec_sandbox_id(),
                i <= n,
                sandbox_id@.len() == old(sandbox_id)@.len(),
                forall|k: int| 0 <= k < i ==> sandbox_id@[k] == spec_sandbox_id()[k],
                forall|k: int| i <= k < sandbox_id@.len() ==> sandbox_id@[k] == old(sandbox_id)@[k],
            decreases n - i,
        {
            sandbox_id.set(i, id[i]);
            i = i + 1;
        }
        S_OK
    }

    /// `XGameSaveGetRemainingQuotaAsync`'s payload: the quota.
    pub fn x_game_save_remaining_quota(&self) -> (q: i64)
        ensures
            q == REMAINING_QUOTA,
    {
        16 * 1024 * 1024
    }

    /// `XGameSaveDeleteContainer` answers `S_OK`; its async form answers
    /// `E_FAIL` and deletes nothing.
    pub fn x_game_save_delete_container(&self, run_async: bool) -> (hr: i32)
        ensures
            hr == (if run_async { E_FAIL } else { S_OK }),
    {
        if run_async {
            E_FAIL
        } else {
            S_OK
        }
    }

    /// `XGameSaveGetContainerInfo`: the description handed to the callback.
    pub fn x_game_save_get_container_info(&self, container_name: &str) -> (info: XGameSaveContainerInfo)
        ensures
            info.name@ == container_name@,
            info.display_name@ == container_name@,
            info.blob_count == 1,
            info.total_size == 0,
            info.last_modified_time == 0,
            !info.needs_sync,
    {
        XGameSaveContainerInfo {
            name: container_name.to_owned(),
            display_name: container_name.to_owned(),
            blob_count: 1,
            total_size: 0,
            last_modified_time: 0,
            needs_sync: false,
        }
    }

    /// `XGameSaveEnumerateBlobInfo`, after each of the container's `count`
    /// files was handed to the callback: `S_OK` when there was one, else
    /// `E_FAIL`.
    pub fn x_game_save_enumerate_blob_info_answer(&self, count: usize) -> (hr: i32)
        ensures
            hr == (if count > 0 { S_OK } else { E_FAIL }),
    {
        if count > 0 {
            S_OK
        } else {
            E_FAIL
        }
    }

    /// `XGameSaveReadBlobData`: where each blob lands in the caller's
    /// buffer, given the length of each name with its closing NUL and the
    /// length of each blob's file. The `count` records come first; each
    /// blob's name follows the previous blob's data, and its data follows
    /// its name. The size of a blob is the low 32 bits of its file's length.
    /// `None` when an offset does not fit in `usize`.
    pub fn blob_layout(&self, name_lens: &Vec<usize>, lens: &Vec<u64>) -> (r: Option<Vec<BlobPlacement>>)
        requires
            name_lens@.len() == lens@.len(),
        ensures
            match r {
                Some(v) => {
                    &&& v@.len() == lens@.len()
                    &&& spec_blob_end(lens@.len(), name_lens@, lens@, lens@.len()) <= usize::MAX
                    &&& forall|i: int| #![trigger v@[i]] 0 <= i < v@.len() ==> {
                        &&& v@[i].name_offset == spec_blob_end(lens@.len(), name_lens@, lens@, i as nat)
                        &&& v@[i].size == spec_blob_size(lens@[i])
                        &&& v@[i].data_offset == v@[i].name_offset + name_lens@[i]
                    }
                },
                None => spec_blob_end(lens@.len(), name_lens@, lens@, lens@.len()) > usize::MAX,
            },
    {
        let count = lens.len();
        if count > usize::MAX / XGAME_SAVE_BLOB_SIZE {
            proof {
                lemma_blob_end_monotonic(count as nat, name_lens@, lens@, 0, count as nat);
                assert(count * XGAME_SAVE_BLOB_SIZE > usize::MAX) by (nonlinear_arith)
                    requires
                        count > usize::MAX / XGAME_SAVE_BLOB_SIZE,
                        XGAME_SAVE_BLOB_SIZE == 24,
                ;
            }
            return None;
        }
        let mut cursor: usize = count * XGAME_SAVE_BLOB_SIZE;
        let mut out: Vec<BlobPlacement> = Vec::new();
        let mut i: usize = 0;
        while i < count
            invariant
                count == lens@.len(),
                name_lens@.len() == lens@.len(),
                i <= count,
                out@.len() == i,
                cursor == spec_blob_end(count as nat, name_lens@, lens@, i as nat),
                forall|j: int| #![trigger out@[j]] 0 <= j < i ==> {
                    &&& out@[j].name_offset == spec_blob_end(count as nat, name_lens@, lens@, j as nat)
                    &&& out@[j].size == spec_blob_size(lens@[j])
                    &&& out@[j].data_offset == out@[j].name_offset + name_lens@[j]
                },
            decreases count - i,
        {
            let size: u32 = (lens[i] % 0x1_0000_0000) as u32;
            let name_len = name_lens[i];
            if name_len > usize::MAX - cursor || size as usize > usize::MAX - cursor - name_len {
                proof {
                    lemma_blob_end_monotonic(count as nat, name_lens@, lens@, (i + 1) as nat, count as nat);
                }
                return None;
            }
            let name_offset = cursor;
            let data_offset = cursor + name_len;
            out.push(BlobPlacement { name_offset, size, data_offset });
            cursor = data_offset + size as usize;
            i = i + 1;
        }
        Some(out)
    }

    /// `XGameSaveSubmitUpdateResult`: the status of the block, not waiting.
    pub fn x_game_save_submit_update_result(&self, block: &XAsyncBlock) -> (hr: i32)
        requires
            block.wf(),
        ensures
            spec_status(*block, false) matches XAsyncStatus::Done(h) && hr == h,
    {
        match block.x_async_get_status(false) {
            XAsyncStatus::Done(h) => h,
            XAsyncStatus::MustWait => E_FAIL,
        }
    }

    /// `XPackageGetCurrentProcessPackageIdentifier`: not implemented.
    pub fn x_package_get_current_process_package_identifier(&self) -> (hr: i32)
        ensures
            hr == E_NOTIMPL,
    {
        E_NOTIMPL
    }

    /// `XPackageIsPackagedProcess`: the process is not packaged.
    pub fn x_package_is_packaged_process(&self) -> (r: bool)
        ensures
            !r,
    {
        false
    }

    /// `XPackageEnumeratePackages2`: the one package handed to the callback.
    pub fn x_package_enumerate_packages2(&self) -> (d: XPackageDetails)
        ensures
            d.package_identifier@ == "Halo4"@,
            d.version == 0,
            d.kind == XPackageKind::Content,
            d.display_name@ == "Halo4"@,
            d.description@ == "Halo4"@,
            d.publisher@ == "MS"@,
            d.store_id@ == "9nn6vs9spw2r"@,
            !d.installing,
            d.index == 0,
            d.count == 1,
            !d.age_restricted,
            d.title_i_d@ == "9nn6vs9spw2r"@,
    {
        XPackageDetails {
            package_identifier: "Halo4".to_owned(),
            version: 0,
            kind: XPackageKind::Content,
            display_name: "Halo4".to_owned(),
            description: "Halo4".to_owned(),
            publisher: "MS".to_owned(),
            store_id: "9nn6vs9spw2r".to_owned(),
            installing: false,
            index: 0,
            count: 1,
            age_restricted: false,
            title_i_d: "9nn6vs9spw2r".to_owned(),
        }
    }
}

} // verus!
