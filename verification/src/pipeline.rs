use crate::errors::AppError;
use crate::lifecycle::opt_name_view;
use crate::lifecycle::spec_upload_part;
use crate::lifecycle::Stores;
use crate::lifecycle::StoresView;
use crate::lifecycle::UploadEvent;
use crate::lifecycle::UploadEventView;
use crate::sys::current_time;
use crate::sys::fresh_uuid;
use vstd::prelude::*;

verus! {

/// One part of a multipart body, as the boundary hands it over: its field
/// name, the filename it declared (if any), and what its body yielded.
pub struct Part {
    pub name: String,
    pub filename: Option<String>,
    pub events: Vec<UploadEvent>,
}

/// The mathematical image of a part.
pub struct PartView {
    pub name: Seq<char>,
    pub filename: Option<Seq<char>>,
    pub events: Seq<UploadEventView>,
}

impl View for Part {
    type V = PartView;

    open spec fn view(&self) -> PartView {
        PartView {
            name: self.name@,
            filename: opt_name_view(self.filename),
            events: self.events.deep_view(),
        }
    }
}

impl DeepView for Part {
    type V = PartView;

    open spec fn deep_view(&self) -> PartView {
        self@
    }
}

/// What the upload handler answers for each stored file.
pub struct Response {
    pub reference_uuid: u128,
    pub filename: String,
}

/// The mathematical image of one answer.
pub struct ResponseView {
    pub reference_uuid: u128,
    pub filename: Seq<char>,
}

impl View for Response {
    type V = ResponseView;

    open spec fn view(&self) -> ResponseView {
        ResponseView { reference_uuid: self.reference_uuid, filename: self.filename@ }
    }
}

impl DeepView for Response {
    type V = ResponseView;

    open spec fn deep_view(&self) -> ResponseView {
        self@
    }
}

/// A part is treated as a file only when its field name is `file`, compared
/// without regard to ASCII case; every other part is skipped without error.
pub open spec fn is_file_field(name: Seq<char>) -> bool {
    &&& name.len() == 4
    &&& (name[0] == 'f' || name[0] == 'F')
    &&& (name[1] == 'i' || name[1] == 'I')
    &&& (name[2] == 'l' || name[2] == 'L')
    &&& (name[3] == 'e' || name[3] == 'E')
}

/// Decides whether a part's field name marks it as a file. Public so the
/// boundary takes the very same decision as the verified request driver.
pub fn field_is_file(name: &String) -> (r: bool)
    ensures
        r == is_file_field(name@),
{
    let s = name.as_str();
    if s.unicode_len() != 4 {
        return false;
    }
    let c0 = s.get_char(0);
    let c1 = s.get_char(1);
    let c2 = s.get_char(2);
    let c3 = s.get_char(3);
    (c0 == 'f' || c0 == 'F') && (c1 == 'i' || c1 == 'I') && (c2 == 'l' || c2 == 'L') && (c3 == 'e'
        || c3 == 'E')
}

/// What a whole multipart request does to the stores: parts are taken in
/// order with one candidate id each; parts not named `file` are skipped;
/// each file part runs the chunked-ingestion protocol on its own object. The first
/// failing part aborts the request — its own object is compensated away,
/// while parts committed earlier in the same request stay committed. The
/// second component lists the answers for the committed parts, the third is
/// the request's outcome.
pub open spec fn spec_upload_request(
    s: StoresView,
    owner_uuid: u128,
    parts: Seq<PartView>,
    ids: Seq<u128>,
    now: u64,
) -> (StoresView, Seq<ResponseView>, Result<(), AppError>)
    decreases parts.len(),
{
    if parts.len() == 0 {
        (s, Seq::<ResponseView>::empty(), Ok(()))
    } else {
        let p = parts[0];
        if !is_file_field(p.name) {
            spec_upload_request(s, owner_uuid, parts.skip(1), ids.skip(1), now)
        } else {
            let (s1, r1) = spec_upload_part(
                s,
                owner_uuid,
                ids[0],
                p.filename,
                p.events,
                now,
                true,
                true,
                true,
            );
            match r1 {
                Ok(f) => {
                    let (s2, rest, out) = spec_upload_request(
                        s1,
                        owner_uuid,
                        parts.skip(1),
                        ids.skip(1),
                        now,
                    );
                    (
                        s2,
                        seq![
                            ResponseView { reference_uuid: ids[0], filename: f.filename },
                        ] + rest,
                        out,
                    )
                },
                Err(e) => (s1, Seq::<ResponseView>::empty(), Err(e)),
            }
        }
    }
}

impl Stores {
    /// Drive a whole multipart request against the stores, one candidate id
    /// per part. Only the parts named `file` are processed; a failure in one
    /// part aborts the request but leaves parts committed earlier in the
    /// same request untouched.
    pub fn upload_request(
        &mut self,
        owner_uuid: u128,
        parts: &Vec<Part>,
        ids: &Vec<u128>,
        now: u64,
    ) -> (r: Result<Vec<Response>, AppError>)
        requires
            old(self).inv(),
            ids@.len() == parts@.len(),
        ensures
            final(self).inv(),
            ({
                let (s2, resps, out) = spec_upload_request(
                    old(self)@,
                    owner_uuid,
                    parts.deep_view(),
                    ids@,
                    now,
                );
                &&& final(self)@ == s2
                &&& match r {
                    Ok(v) => out is Ok && v.deep_view() == resps,
                    Err(e) => out == Err::<(), AppError>(e),
                }
            }),
    {
        let ghost pv = parts.deep_view();
        let ghost iv = ids@;
        let mut responses: Vec<Response> = Vec::new();
        let n = parts.len();
        let mut i: usize = 0;
        proof {
            assert(pv.skip(0) =~= pv);
            assert(iv.skip(0) =~= iv);
        }
        while i < n
            invariant
                i <= n,
                n == pv.len(),
                n == iv.len(),
                pv == parts.deep_view(),
                iv == ids@,
                self.inv(),
                ({
                    let full = spec_upload_request(old(self)@, owner_uuid, pv, iv, now);
                    let rest = spec_upload_request(
                        self@,
                        owner_uuid,
                        pv.skip(i as int),
                        iv.skip(i as int),
                        now,
                    );
                    &&& full.0 == rest.0
                    &&& full.2 == rest.2
                    &&& full.1 == responses.deep_view() + rest.1
                }),
            decreases n - i,
        {
            proof {
                assert(pv.skip(i as int)[0] == pv[i as int]);
                assert(pv.skip(i as int).skip(1) =~= pv.skip(i as int + 1));
                assert(iv.skip(i as int)[0] == iv[i as int]);
                assert(iv.skip(i as int).skip(1) =~= iv.skip(i as int + 1));
            }
            let part = &parts[i];
            if field_is_file(&part.name) {
                let fname: Option<String> = match &part.filename {
                    Some(x) => Some(x.clone()),
                    None => None,
                };
                let id = ids[i];
                match self.upload_part(owner_uuid, id, fname, &part.events, now, true, true, true)
                {
                    Ok(f) => {
                        let resp = Response { reference_uuid: id, filename: f.filename };
                        let ghost before = responses.deep_view();
                        responses.push(resp);
                        proof {
                            assert(responses.deep_view() =~= before.push(
                                ResponseView { reference_uuid: id, filename: f@.filename },
                            ));
                            assert(before.push(
                                ResponseView { reference_uuid: id, filename: f@.filename },
                            ) + spec_upload_request(
                                self@,
                                owner_uuid,
                                pv.skip(i as int + 1),
                                iv.skip(i as int + 1),
                                now,
                            ).1 =~= before + (seq![
                                ResponseView { reference_uuid: id, filename: f@.filename },
                            ] + spec_upload_request(
                                self@,
                                owner_uuid,
                                pv.skip(i as int + 1),
                                iv.skip(i as int + 1),
                                now,
                            ).1));
                        }
                    },
                    Err(e) => {
                        return Err(e);
                    },
                }
            }
            i += 1;
        }
        proof {
            assert(pv.skip(n as int) =~= Seq::<PartView>::empty());
            assert(responses.deep_view() + Seq::<ResponseView>::empty() =~= responses.deep_view());
        }
        Ok(responses)
    }

    /// The upload handler's core: draw a fresh candidate id for every part
    /// and run the request. The answer lists one `{id, filename}` entry per
    /// stored file.
    pub fn stream_upload(&mut self, owner_uuid: u128, parts: &Vec<Part>) -> (r: Result<
        Vec<Response>,
        AppError,
    >)
        requires
            old(self).inv(),
        ensures
            final(self).inv(),
            exists|ids: Seq<u128>, now: u64|
                {
                    let (s2, resps, out) = #[trigger] spec_upload_request(
                        old(self)@,
                        owner_uuid,
                        parts.deep_view(),
                        ids,
                        now,
                    );
                    &&& ids.len() == parts.deep_view().len()
                    &&& final(self)@ == s2
                    &&& match r {
                        Ok(v) => out is Ok && v.deep_view() == resps,
                        Err(e) => out == Err::<(), AppError>(e),
                    }
                },
    {
        let now = current_time();
        let n = parts.len();
        let mut ids: Vec<u128> = Vec::new();
        while ids.len() < n
            invariant
                ids@.len() <= n,
            decreases n - ids@.len(),
        {
            ids.push(fresh_uuid());
        }
        let r = self.upload_request(owner_uuid, parts, &ids, now);
        proof {
            assert(ids@.len() == parts.deep_view().len());
        }
        r
    }
}

} // verus!
