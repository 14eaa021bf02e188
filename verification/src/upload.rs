//! The upload orchestrator: a state machine over the three-phase protocol
//! (precreate, ascending slice uploads, create), with the fast-upload
//! short circuit. The machine describes each request and consumes each
//! response; the surrounding application moves the bytes.

use vstd::prelude::*;
use crate::chunk::chunk_count;
use crate::chunk::chunk_of;
use crate::chunk::compute_block_list;
use crate::chunk::lemma_chunk_count_bounds;
use crate::chunk::md5_hex_of;
use crate::chunk::spec_chunk;
use crate::chunk::spec_chunk_count;
use crate::config::Config;
use crate::error::Error;
use crate::models::FileCreateResponse;
use crate::models::FilePrecreateResponse;
use crate::query::query_ready_url_of;
use crate::query::s_to_string;
use crate::query::spec_api_url;
use crate::requests::file_create_request;
use crate::requests::file_precreate_request;
use crate::requests::spec_block_list_field;
use crate::requests::spec_create_body;
use crate::requests::spec_precreate_body;
use crate::requests::spec_slice_params;
use crate::requests::spec_upload_params;
use crate::requests::upload_slice_request;
use crate::requests::ApiRequest;
use crate::requests::HttpMethod;
use crate::requests::RequestBody;

verus! {

/// Chunk size used when the caller gives none.
pub const DEFAULT_CHUNK_SIZE: usize = 4 * 1024 * 1024;

/// The chunk size an upload runs with: the caller's, or the default.
pub open spec fn spec_effective_chunk_size(chunk_size: Option<usize>) -> usize {
    match chunk_size {
        Some(c) => c,
        None => DEFAULT_CHUNK_SIZE,
    }
}

/// Phase of one upload operation.
#[derive(Debug, Clone, Copy, PartialEq, Eq, Structural)]
pub enum UploadPhase {
    /// The digest list is computed; the precreate call is owed.
    Precreating,
    /// Slices are being sent, in ascending index order.
    Uploading,
    /// Every slice is acknowledged; the create call is owed.
    Finalizing,
    /// The remote file exists.
    Done,
}

/// What the caller owes the server next.
#[derive(Debug, Clone, PartialEq, Eq)]
pub enum UploadStep {
    /// Send the slice with this index.
    NextSlice(usize),
    /// Send the create call.
    Finalize,
    /// Nothing: the server already held the content, and this is the
    /// remote file record.
    Finished(FileCreateResponse),
}

/// One upload operation: remote path, source size, chunking, the digest
/// list computed up front, and the protocol position. The digest list
/// never changes after `begin`, so precreate and create submit the same
/// list.
#[derive(Debug, Clone)]
pub struct UploadFlow {
    /// Remote path of the file being created.
    pub remote_path: String,
    /// Source size in bytes.
    pub size: usize,
    /// Chunk size in bytes; positive.
    pub chunk_size: usize,
    /// Per-chunk digests, in chunk order, fixed at `begin`.
    pub block_list: Vec<String>,
    /// Server-issued session id, once precreate answered.
    pub uploadid: Option<String>,
    /// Index of the next slice to send.
    pub next_slice: usize,
    /// Protocol position.
    pub phase: UploadPhase,
}

impl UploadFlow {
    /// The number of slices this upload needs.
    pub open spec fn spec_count(&self) -> nat {
        spec_chunk_count(self.size as nat, self.chunk_size as nat)
    }

    /// Well-formedness, established by `begin` and kept by every step.
    pub open spec fn wf(&self) -> bool {
        &&& self.chunk_size > 0
        &&& self.block_list@.len() == self.spec_count()
        &&& (self.phase == UploadPhase::Precreating ==> self.next_slice == 0)
        &&& (self.phase == UploadPhase::Uploading ==> self.uploadid is Some && (
        self.next_slice as nat) < self.spec_count())
        &&& (self.phase == UploadPhase::Finalizing ==> self.uploadid is Some && (
        self.next_slice as nat) == self.spec_count())
    }

    /// Whether `block_list` is the digest list of `data` under this flow's
    /// chunking.
    pub open spec fn digests_of(&self, data: Seq<u8>) -> bool {
        &&& self.size == data.len()
        &&& forall|i: int|
            0 <= i < self.block_list@.len() ==> self.block_list@[i]@ == md5_hex_of(
                spec_chunk(data, self.chunk_size as nat, i as nat),
            )
    }

    /// Starts an upload: hashes `data` chunk by chunk and enters the
    /// precreate phase. Rejects a zero chunk size before anything is sent.
    pub fn begin(remote_path: &str, data: &Vec<u8>, chunk_size: Option<usize>) -> (r: Result<
        UploadFlow,
        Error,
    >)
        ensures
            r is Err <==> spec_effective_chunk_size(chunk_size) == 0,
            r matches Err(e) ==> e matches Error::ParamError(m) && m@
                == "chunk size must be positive"@,
            r matches Ok(f) ==> {
                &&& f.wf()
                &&& f.phase == UploadPhase::Precreating
                &&& f.remote_path@ == remote_path@
                &&& f.size == data@.len()
                &&& f.chunk_size == spec_effective_chunk_size(chunk_size)
                &&& f.uploadid is None
                &&& f.next_slice == 0
                &&& f.digests_of(data@)
            },
    {
        let c = match chunk_size {
            Some(c) => c,
            None => DEFAULT_CHUNK_SIZE,
        };
        if c == 0 {
            return Err(Error::ParamError(s_to_string("chunk size must be positive")));
        }
        let block_list = compute_block_list(data, c);
        Ok(
            UploadFlow {
                remote_path: s_to_string(remote_path),
                size: data.len(),
                chunk_size: c,
                block_list,
                uploadid: None,
                next_slice: 0,
                phase: UploadPhase::Precreating,
            },
        )
    }

    /// Describes the precreate call: this flow's path, size and serialized
    /// digest list. Fails exactly when the configured base URL does not
    /// parse.
    pub fn precreate_request(&self, config: &Config) -> (r: Result<ApiRequest, Error>)
        requires
            self.wf(),
            self.phase == UploadPhase::Precreating,
        ensures
            r is Ok <==> query_ready_url_of(
                config.server.pan_url@ + "/rest/2.0/xpan/file"@,
            ) is Some,
            r matches Ok(req) ==> {
                &&& req.method == HttpMethod::Post
                &&& req.url@ == spec_api_url(
                    config.server.pan_url@ + "/rest/2.0/xpan/file"@,
                    spec_upload_params("precreate"@, config.access_token@),
                )
                &&& req.body matches RequestBody::Json(b) && b@ == spec_precreate_body(
                    self.remote_path@,
                    self.size as u64,
                    self.block_list.deep_view(),
                )
            },
            r matches Err(e) ==> e matches Error::UrlParseError(_),
    {
        file_precreate_request(
            config,
            self.remote_path.as_str(),
            self.size as u64,
            &self.block_list,
        )
    }

    /// Consumes the precreate response. A discriminator of 1 with a
    /// populated record is the fast-upload match: the flow is done and the
    /// record is returned, with no slice or create call owed. Any other
    /// response stores the session id and owes the first slice, or the
    /// create call straight away when there are no chunks.
    pub fn on_precreate_response(&mut self, resp: FilePrecreateResponse) -> (step: UploadStep)
        requires
            old(self).wf(),
            old(self).phase == UploadPhase::Precreating,
        ensures
            final(self).wf(),
            final(self).remote_path == old(self).remote_path,
            final(self).size == old(self).size,
            final(self).chunk_size == old(self).chunk_size,
            final(self).block_list == old(self).block_list,
            (resp.return_type == 1 && resp.file_info is Some) ==> {
                &&& final(self).phase == UploadPhase::Done
                &&& step matches UploadStep::Finished(rec) && {
                    let fi = resp.file_info->Some_0;
                    &&& rec.fs_id == (match fi.fs_id {
                        Some(x) => x,
                        None => 0,
                    })
                    &&& rec.path@ == (match fi.path {
                        Some(p) => p@,
                        None => Seq::<char>::empty(),
                    })
                    &&& rec.server_filename@ == (match fi.server_filename {
                        Some(n) => n@,
                        None => Seq::<char>::empty(),
                    })
                    &&& rec.size == (match fi.size {
                        Some(s) => s,
                        None => 0,
                    })
                    &&& rec.md5 == fi.md5
                    &&& rec.ctime == (match fi.ctime {
                        Some(t) => t,
                        None => 0,
                    })
                    &&& rec.mtime == (match fi.mtime {
                        Some(t) => t,
                        None => 0,
                    })
                    &&& rec.isdir == (match fi.isdir {
                        Some(d) => d,
                        None => 0,
                    })
                    &&& rec.category == (match fi.category {
                        Some(c) => c,
                        None => 0,
                    })
                }
            },
            !(resp.return_type == 1 && resp.file_info is Some) ==> {
                &&& final(self).uploadid matches Some(u) && u@ == resp.uploadid@
                &&& (old(self).spec_count() == 0 ==> final(self).phase == UploadPhase::Finalizing
                    && step == UploadStep::Finalize)
                &&& (old(self).spec_count() > 0 ==> final(self).phase == UploadPhase::Uploading
                    && final(self).next_slice == 0 && step == UploadStep::NextSlice(0usize))
            },
    {
        if resp.return_type == 1 && resp.file_info.is_some() {
            let fi = match resp.file_info {
                Some(fi) => fi,
                None => {
                    unreached()
                },
            };
            self.phase = UploadPhase::Done;
            let rec = FileCreateResponse {
                fs_id: match fi.fs_id {
                    Some(x) => x,
                    None => 0,
                },
                path: match fi.path {
                    Some(p) => p,
                    None => String::new(),
                },
                server_filename: match fi.server_filename {
                    Some(n) => n,
                    None => String::new(),
                },
                size: match fi.size {
                    Some(s) => s,
                    None => 0,
                },
                md5: fi.md5,
                ctime: match fi.ctime {
                    Some(t) => t,
                    None => 0,
                },
                mtime: match fi.mtime {
                    Some(t) => t,
                    None => 0,
                },
                isdir: match fi.isdir {
                    Some(d) => d,
                    None => 0,
                },
                category: match fi.category {
                    Some(c) => c,
                    None => 0,
                },
            };
            return UploadStep::Finished(rec);
        }
        self.uploadid = Some(resp.uploadid);
        let count = chunk_count(self.size, self.chunk_size);
        if count == 0 {
            self.phase = UploadPhase::Finalizing;
            UploadStep::Finalize
        } else {
            self.phase = UploadPhase::Uploading;
            UploadStep::NextSlice(0)
        }
    }

    /// Describes the next slice upload: the chunk with index `next_slice`
    /// of `data`, under this flow's session id. The request is a pure
    /// function of its inputs, so a retry resends the same bytes under the
    /// same index. Fails exactly when the configured base URL does not
    /// parse.
    pub fn slice_request(&self, config: &Config, data: &Vec<u8>) -> (r: Result<ApiRequest, Error>)
        requires
            self.wf(),
            self.phase == UploadPhase::Uploading,
            data@.len() == self.size,
        ensures
            r is Ok <==> query_ready_url_of(
                config.server.pcs_url@ + "/rest/2.0/pcs/superfile2"@,
            ) is Some,
            r matches Ok(req) ==> {
                &&& req.method == HttpMethod::Post
                &&& req.url@ == spec_api_url(
                    config.server.pcs_url@ + "/rest/2.0/pcs/superfile2"@,
                    spec_slice_params(
                        self.remote_path@,
                        self.uploadid->Some_0@,
                        self.next_slice as u64,
                        config.access_token@,
                    ),
                )
                &&& req.body matches RequestBody::MultipartFile(d) && d@ == spec_chunk(
                    data@,
                    self.chunk_size as nat,
                    self.next_slice as nat,
                )
            },
            r matches Err(e) ==> e matches Error::UrlParseError(_),
    {
        let part = chunk_of(data, self.chunk_size, self.next_slice);
        let uid = match &self.uploadid {
            Some(u) => u,
            None => {
                unreached()
            },
        };
        upload_slice_request(
            config,
            self.remote_path.as_str(),
            uid.as_str(),
            self.next_slice as u64,
            &part,
        )
    }

    /// Consumes one slice acknowledgement: the next index is owed, in
    /// ascending order, until every chunk is sent; then the create call is
    /// owed.
    pub fn on_slice_acknowledged(&mut self) -> (step: UploadStep)
        requires
            old(self).wf(),
            old(self).phase == UploadPhase::Uploading,
        ensures
            final(self).wf(),
            final(self).remote_path == old(self).remote_path,
            final(self).size == old(self).size,
            final(self).chunk_size == old(self).chunk_size,
            final(self).block_list == old(self).block_list,
            final(self).uploadid == old(self).uploadid,
            final(self).next_slice == old(self).next_slice + 1,
            (old(self).next_slice + 1 < old(self).spec_count()) ==> (final(self).phase
                == UploadPhase::Uploading && step == UploadStep::NextSlice(
                (old(self).next_slice + 1) as usize,
            )),
            (old(self).next_slice + 1 == old(self).spec_count()) ==> (final(self).phase
                == UploadPhase::Finalizing && step == UploadStep::Finalize),
    {
        proof {
            lemma_chunk_count_bounds(self.size as nat, self.chunk_size as nat);
        }
        let count = chunk_count(self.size, self.chunk_size);
        self.next_slice = self.next_slice + 1;
        if self.next_slice < count {
            UploadStep::NextSlice(self.next_slice)
        } else {
            self.phase = UploadPhase::Finalizing;
            UploadStep::Finalize
        }
    }

    /// Describes the create call: the same path, size and serialized
    /// digest list as precreate, plus the session id. Fails exactly when
    /// the configured base URL does not parse.
    pub fn create_request(&self, config: &Config) -> (r: Result<ApiRequest, Error>)
        requires
            self.wf(),
            self.phase == UploadPhase::Finalizing,
        ensures
            r is Ok <==> query_ready_url_of(
                config.server.pan_url@ + "/rest/2.0/xpan/file"@,
            ) is Some,
            r matches Ok(req) ==> {
                &&& req.method == HttpMethod::Post
                &&& req.url@ == spec_api_url(
                    config.server.pan_url@ + "/rest/2.0/xpan/file"@,
                    spec_upload_params("create"@, config.access_token@),
                )
                &&& req.body matches RequestBody::Json(b) && b@ == spec_create_body(
                    self.remote_path@,
                    self.size as u64,
                    self.uploadid->Some_0@,
                    self.block_list.deep_view(),
                )
            },
            r matches Err(e) ==> e matches Error::UrlParseError(_),
    {
        let uid = match &self.uploadid {
            Some(u) => u,
            None => {
                unreached()
            },
        };
        file_create_request(
            config,
            self.remote_path.as_str(),
            self.size as u64,
            uid.as_str(),
            &self.block_list,
        )
    }

    /// Consumes the create response: the flow is done and the record is
    /// the authoritative remote file.
    pub fn on_create_response(&mut self, resp: FileCreateResponse) -> (r: FileCreateResponse)
        requires
            old(self).wf(),
            old(self).phase == UploadPhase::Finalizing,
        ensures
            final(self).phase == UploadPhase::Done,
            final(self).block_list == old(self).block_list,
            r == resp,
    {
        self.phase = UploadPhase::Done;
        resp
    }
}

/// Round trip of the digest list: every step of `UploadFlow` keeps
/// `block_list` unchanged, so a flow that reaches the create call embeds
/// in its create body the byte-identical serialized digest list that its
/// precreate body embedded.
pub proof fn lemma_digest_list_round_trip(pre: UploadFlow, fin: UploadFlow)
    requires
        pre.block_list == fin.block_list,
    ensures
        spec_block_list_field(pre.block_list.deep_view()) == spec_block_list_field(
            fin.block_list.deep_view(),
        ),
{
}

proof fn lemma_trace_prefix(trace: Seq<int>, k: int)
    requires
        0 <= k < trace.len(),
        trace[0] == 0,
        forall|j: int| 0 <= j < trace.len() - 1 ==> #[trigger] trace[j + 1] == trace[j] + 1,
    ensures
        trace[k] == k,
    decreases k,
{
    if k > 0 {
        lemma_trace_prefix(trace, k - 1);
        assert(trace[(k - 1) + 1] == trace[k - 1] + 1);
    }
}

/// Ascending slice order: a run that starts at index zero and advances by
/// one per acknowledgement (as `on_precreate_response` and
/// `on_slice_acknowledged` ensure) emits exactly the indices
/// 0, 1, ..., n-1, strictly ascending, with none repeated or skipped.
pub proof fn lemma_slice_indices_ascending(trace: Seq<int>)
    requires
        trace.len() > 0,
        trace[0] == 0,
        forall|j: int| 0 <= j < trace.len() - 1 ==> #[trigger] trace[j + 1] == trace[j] + 1,
    ensures
        forall|k: int| 0 <= k < trace.len() ==> trace[k] == k,
{
    assert forall|k: int| 0 <= k < trace.len() implies trace[k] == k by {
        lemma_trace_prefix(trace, k);
    }
}

} // verus!
