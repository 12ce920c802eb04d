//! The open documents: one session per handle, each with its engine state,
//! its file path and whether it was edited since it was last saved.

use std::collections::HashMap;
use vstd::prelude::*;
use vstd::std_specs::iter::IteratorSpec;
use crate::doc_id::{format_doc_id, id_number, id_text, parse_doc_id};
use crate::error::ToolError;
use crate::forms::{check_form_result, form_members, form_value_request, json_object_text, names_nothing};
use crate::params::{flag_or, ReplaceTextParams, SetCellTextParams, SetFormValueParams};
use crate::text::occurs_in;

verus! {

broadcast use vstd::std_specs::hash::group_hash_axioms;

/// One open document.
pub struct DocumentSession<C> {
    /// The document engine's state of the document.
    pub core: C,
    /// The path the document was opened from: the default save target.
    pub path: String,
    /// Whether the document was edited since it was last saved.
    pub dirty: bool,
}

/// The session `s` after a change to its engine state, which is now `core`: same path, and
/// marked as edited when `edited` holds, otherwise as it was.
pub open spec fn after_change<C>(s: DocumentSession<C>, core: C, edited: bool) -> DocumentSession<C> {
    DocumentSession { core, path: s.path, dirty: s.dirty || edited }
}

/// What a save reports of the write: the byte count, or the error.
pub open spec fn written(r: Result<(String, usize), ToolError>) -> Result<usize, ToolError> {
    match r {
        Ok((_, bytes)) => Ok(bytes),
        Err(e) => Err(e),
    }
}

/// The result of a form value request whose engine answer was `w`: the answer when it reports
/// success, no form object at the position when it does not, the engine's error otherwise.
pub open spec fn form_answer(w: Result<String, ToolError>, p: SetFormValueParams) -> Result<String, ToolError> {
    match w {
        Ok(answer) => if occurs_in("\"ok\":true"@, answer@) {
            Ok(answer)
        } else {
            Err(ToolError::NoFormAt { section: p.section, para: p.para, control: p.control })
        },
        Err(e) => Err(e),
    }
}

/// The cell paragraph that a cell text request addresses: 0 unless given.
pub open spec fn cell_para_of(p: SetCellTextParams) -> usize {
    match p.cell_para {
        Some(c) => c,
        None => 0,
    }
}

/// The open documents, by handle.
pub struct DocumentStore<C> {
    sessions: HashMap<u64, DocumentSession<C>>,
    next_id: u64,
}

impl<C> View for DocumentStore<C> {
    type V = Map<u64, DocumentSession<C>>;

    /// The session of each open document, by session number.
    closed spec fn view(&self) -> Map<u64, DocumentSession<C>> {
        self.sessions@
    }
}

impl<C> DocumentStore<C> {
    /// The last session number handed out (0 before the first).
    pub closed spec fn issued(&self) -> u64 {
        self.next_id
    }

    /// Every open document has a session number between 1 and the last one handed out.
    pub closed spec fn wf(&self) -> bool {
        forall|id: u64| #[trigger] self.sessions@.contains_key(id) ==> 1 <= id <= self.next_id
    }

    /// The session number that the handle `doc_id` names, if that document is open.
    pub open spec fn target(&self, doc_id: Seq<char>) -> Option<u64> {
        match id_number(doc_id) {
            Some(n) => if self@.contains_key(n) { Some(n) } else { None },
            None => None,
        }
    }

    /// What closing `doc_id` does: when it names an open document, that document leaves the
    /// store and its path and unsaved-edits flag come back; otherwise the handle is refused
    /// and nothing changes.
    pub open spec fn closes(self, after: Self, doc_id: Seq<char>, r: Result<(String, bool), ToolError>) -> bool {
        match self.target(doc_id) {
            Some(n) => {
                &&& r matches Ok((path, dirty)) && path == self@[n].path && dirty == self@[n].dirty
                &&& after@ == self@.remove(n)
            },
            None => {
                &&& r matches Err(ToolError::UnknownDoc { doc_id: d }) && d@ == doc_id
                &&& after == self
            },
        }
    }

    /// The unsaved-edits flag of `doc_id` after an operation: when `changed` holds it is
    /// `value`, otherwise it is as before; the same documents stay open and the path is kept.
    pub open spec fn sets_flag(self, after: Self, doc_id: Seq<char>, changed: bool, value: bool) -> bool {
        match self.target(doc_id) {
            Some(n) => {
                &&& after@.dom() == self@.dom()
                &&& after@[n].path == self@[n].path
                &&& after@[n].dirty == if changed { value } else { self@[n].dirty }
            },
            None => after@ == self@,
        }
    }

    /// `r` lists the open documents: the `i`-th entry is the handle, path and unsaved-edits flag
    /// of session `ids[i]`, and `ids` holds each open session number exactly once.
    pub open spec fn lists(&self, r: Seq<(String, String, bool)>, ids: Seq<u64>) -> bool {
        &&& ids.len() == r.len()
        &&& ids.no_duplicates()
        &&& forall|n: u64| self@.contains_key(n) <==> ids.contains(n)
        &&& forall|i: int| 0 <= i < r.len() ==> {
            &&& (#[trigger] r[i]).0@ == id_text(ids[i] as nat)
            &&& r[i].1 == self@[ids[i]].path
            &&& r[i].2 == self@[ids[i]].dirty
        }
    }

    /// The open documents' numbers are positive and never above the last number handed out.
    pub proof fn lemma_numbers_issued(&self)
        requires
            self.wf(),
        ensures
            forall|id: u64| #[trigger] self@.contains_key(id) ==> 1 <= id <= self.issued(),
    {
    }

    /// An empty store.
    pub fn new() -> (s: Self)
        ensures
            s.wf(),
            s@ == Map::<u64, DocumentSession<C>>::empty(),
            s.issued() == 0,
    {
        DocumentStore { sessions: HashMap::new(), next_id: 0 }
    }

    /// The last session number handed out (0 before the first); opening another document
    /// needs it to be below `u64::MAX`.
    pub fn last_issued(&self) -> (n: u64)
        ensures
            n == self.issued(),
    {
        self.next_id
    }

    fn locate(&self, doc_id: &str) -> (r: Option<u64>)
        ensures
            r == self.target(doc_id@),
    {
        match parse_doc_id(doc_id) {
            Some(n) => {
                if self.sessions.contains_key(&n) {
                    Some(n)
                } else {
                    None
                }
            },
            None => None,
        }
    }

    /// Takes the session `n` out of the store, to be put back with `put_back`.
    fn take(&mut self, n: u64) -> (s: DocumentSession<C>)
        requires
            old(self).wf(),
            old(self)@.contains_key(n),
        ensures
            s == old(self)@[n],
            final(self)@ == old(self)@.remove(n),
            final(self).issued() == old(self).issued(),
            final(self).wf(),
    {
        match self.sessions.remove(&n) {
            Some(s) => s,
            None => vstd::pervasive::unreached(),
        }
    }

    fn put_back(&mut self, n: u64, s: DocumentSession<C>)
        requires
            old(self).wf(),
            1 <= n <= old(self).issued(),
        ensures
            final(self)@ == old(self)@.insert(n, s),
            final(self).issued() == old(self).issued(),
            final(self).wf(),
    {
        self.sessions.insert(n, s);
    }

    /// Registers a newly opened document and hands out its handle.
    ///
    /// The handle is `doc-<n>` for the next session number `n`; the new session is clean.
    pub fn insert(&mut self, core: C, path: String) -> (doc_id: String)
        requires
            old(self).wf(),
            old(self).issued() < u64::MAX,
        ensures
            final(self).wf(),
            final(self).issued() == old(self).issued() + 1,
            doc_id@ == id_text(final(self).issued() as nat),
            !old(self)@.contains_key(final(self).issued()),
            final(self)@ == old(self)@.insert(
                final(self).issued(),
                DocumentSession { core, path, dirty: false },
            ),
    {
        self.next_id = self.next_id + 1;
        let id = self.next_id;
        self.sessions.insert(id, DocumentSession { core, path, dirty: false });
        format_doc_id(id)
    }

    /// Closes a document: its session leaves the store, and its path and whether it had
    /// unsaved edits come back.
    pub fn remove(&mut self, doc_id: &str) -> (r: Result<(String, bool), ToolError>)
        requires
            old(self).wf(),
        ensures
            final(self).wf(),
            final(self).issued() == old(self).issued(),
            old(self).closes(*final(self), doc_id@, r),
    {
        match self.locate(doc_id) {
            None => Err(ToolError::unknown_doc(doc_id)),
            Some(n) => {
                let session = self.take(n);
                Ok((session.path, session.dirty))
            },
        }
    }

    /// The open documents, in no particular order: handle, path and whether each has unsaved
    /// edits. Each open document comes once.
    pub fn list(&self) -> (r: Vec<(String, String, bool)>)
        requires
            self.wf(),
        ensures
            exists|ids: Seq<u64>| #[trigger] self.lists(r@, ids),
    {
        let mut r: Vec<(String, String, bool)> = Vec::new();
        let ghost mut ids: Seq<u64> = Seq::empty();
        let it = self.sessions.iter();
        let ghost all = it.remaining();
        assert(all.no_duplicates());
        for kv in iter: it
            invariant
                all == iter.seq(),
                all.no_duplicates(),
                all.len() == self@.dom().len(),
                forall|i: int| #![trigger all[i]] 0 <= i < all.len() ==> self@.contains_key(*all[i].0) && self@[*all[i].0] == *all[i].1,
                forall|k: u64| #[trigger] self@.contains_key(k) ==> all.contains((&k, &self@[k])),
                ids.len() == r@.len(),
                ids.len() == iter.index(),
                forall|i: int| 0 <= i < ids.len() ==> ids[i] == *all[i].0,
                forall|i: int| 0 <= i < r@.len() ==> {
                    &&& (#[trigger] r@[i]).0@ == id_text(ids[i] as nat)
                    &&& r@[i].1 == self@[ids[i]].path
                    &&& r@[i].2 == self@[ids[i]].dirty
                },
        {
            let (k, s) = kv;
            r.push((format_doc_id(*k), s.path.clone(), s.dirty));
            proof { ids = ids.push(*k); }
        }
        proof {
            assert forall|i: int, j: int| 0 <= i < ids.len() && 0 <= j < ids.len() && i != j implies ids[i] != ids[j] by {
                assert(all[i] != all[j]);
                assert(self@[*all[i].0] == *all[i].1);
                assert(self@[*all[j].0] == *all[j].1);
            }
            assert forall|n: u64| self@.contains_key(n) <==> ids.contains(n) by {
                if self@.contains_key(n) {
                    let i = choose|i: int| 0 <= i < all.len() && all[i] == (&n, &self@[n]);
                    assert(ids[i] == n);
                }
                if ids.contains(n) {
                    let i = choose|i: int| 0 <= i < ids.len() && ids[i] == n;
                    assert(self@.contains_key(*all[i].0));
                }
            }
            assert(self.lists(r@, ids));
        }
        r
    }

    /// Runs `f` on the session of `doc_id` for reading; an unknown handle is an error and
    /// `f` is not run.
    pub fn with_session<T, F: FnOnce(&DocumentSession<C>) -> Result<T, ToolError>>(
        &self,
        doc_id: &str,
        f: F,
    ) -> (r: Result<T, ToolError>)
        requires
            self.wf(),
            forall|s: &DocumentSession<C>| f.requires((s,)),
        ensures
            match self.target(doc_id@) {
                Some(n) => f.ensures((&self@[n],), r),
                None => r matches Err(ToolError::UnknownDoc { doc_id: d }) && d@ == doc_id@,
            },
    {
        match self.locate(doc_id) {
            None => Err(ToolError::unknown_doc(doc_id)),
            Some(n) => match self.sessions.get(&n) {
                Some(s) => f(s),
                None => vstd::pervasive::unreached(),
            },
        }
    }

    /// Runs `f` on the session of `doc_id` for changing it, without touching the
    /// unsaved-edits flag beyond what `f` does; an unknown handle is an error and `f` is not run.
    pub fn with_session_mut<T, F: FnOnce(&mut DocumentSession<C>) -> Result<T, ToolError>>(
        &mut self,
        doc_id: &str,
        f: F,
    ) -> (r: Result<T, ToolError>)
        requires
            old(self).wf(),
            forall|s: &mut DocumentSession<C>| f.requires((s,)),
        ensures
            final(self).wf(),
            final(self).issued() == old(self).issued(),
            match old(self).target(doc_id@) {
                Some(n) => exists|s: &mut DocumentSession<C>| {
                    &&& *s == old(self)@[n]
                    &&& f.ensures((s,), r)
                    &&& final(self)@ == old(self)@.insert(n, *final(s))
                },
                None => {
                    &&& r matches Err(ToolError::UnknownDoc { doc_id: d }) && d@ == doc_id@
                    &&& *final(self) == *old(self)
                },
            },
    {
        match self.locate(doc_id) {
            None => Err(ToolError::unknown_doc(doc_id)),
            Some(n) => {
                let ghost before = self@;
                let mut s = self.take(n);
                let r = f(&mut s);
                let ghost after_f = s;
                self.put_back(n, s);
                assert(self@ =~= before.insert(n, after_f));
                r
            },
        }
    }

    /// Runs the edit `f` on the session of `doc_id`; when `f` succeeds the document is marked
    /// as having unsaved edits, when it fails the flag stays as `f` left it. An unknown handle
    /// is an error and `f` is not run.
    pub fn with_session_edit<T, F: FnOnce(&mut DocumentSession<C>) -> Result<T, ToolError>>(
        &mut self,
        doc_id: &str,
        f: F,
    ) -> (r: Result<T, ToolError>)
        requires
            old(self).wf(),
            forall|s: &mut DocumentSession<C>| f.requires((s,)),
        ensures
            final(self).wf(),
            final(self).issued() == old(self).issued(),
            match old(self).target(doc_id@) {
                Some(n) => exists|s: &mut DocumentSession<C>| {
                    &&& *s == old(self)@[n]
                    &&& f.ensures((s,), r)
                    &&& final(self)@ == old(self)@.insert(n, DocumentSession {
                        core: final(s).core,
                        path: final(s).path,
                        dirty: r is Ok || final(s).dirty,
                    })
                },
                None => {
                    &&& r matches Err(ToolError::UnknownDoc { doc_id: d }) && d@ == doc_id@
                    &&& *final(self) == *old(self)
                },
            },
    {
        match self.locate(doc_id) {
            None => Err(ToolError::unknown_doc(doc_id)),
            Some(n) => {
                let mut s = self.take(n);
                let r = f(&mut s);
                if r.is_ok() {
                    s.dirty = true;
                }
                self.put_back(n, s);
                r
            },
        }
    }

    /// Runs the edit `f` on the engine state of `doc_id`. The path is kept; the document is
    /// marked as having unsaved edits when `f` succeeds and keeps its flag when `f` fails.
    /// An unknown handle is an error and `f` is not run.
    pub fn with_core_edit<T, F: FnOnce(&mut C) -> Result<T, ToolError>>(
        &mut self,
        doc_id: &str,
        f: F,
    ) -> (r: Result<T, ToolError>)
        requires
            old(self).wf(),
            forall|c: &mut C| f.requires((c,)),
        ensures
            final(self).wf(),
            final(self).issued() == old(self).issued(),
            old(self).sets_flag(*final(self), doc_id@, r is Ok, true),
            match old(self).target(doc_id@) {
                Some(n) => exists|c: &mut C| {
                    &&& *c == old(self)@[n].core
                    &&& f.ensures((c,), r)
                    &&& final(self)@ == old(self)@.insert(n, after_change(old(self)@[n], *final(c), r is Ok))
                },
                None => {
                    &&& r matches Err(ToolError::UnknownDoc { doc_id: d }) && d@ == doc_id@
                    &&& *final(self) == *old(self)
                },
            },
    {
        match self.locate(doc_id) {
            None => Err(ToolError::unknown_doc(doc_id)),
            Some(n) => {
                let mut s = self.take(n);
                let r = f(&mut s.core);
                if r.is_ok() {
                    s.dirty = true;
                }
                self.put_back(n, s);
                r
            },
        }
    }

    /// Saves the document `doc_id`: `write` exports the engine state to the target path, which
    /// is `output_path` when given and the path the document came from otherwise. When `write`
    /// succeeds the document is clean and the target and the byte count come back; when it
    /// fails its error comes back and the unsaved-edits flag is unchanged.
    pub fn save<F: FnOnce(&mut C, &String) -> Result<usize, ToolError>>(
        &mut self,
        doc_id: &str,
        output_path: Option<String>,
        write: F,
    ) -> (r: Result<(String, usize), ToolError>)
        requires
            old(self).wf(),
            forall|c: &mut C, t: &String| write.requires((c, t)),
        ensures
            final(self).wf(),
            final(self).issued() == old(self).issued(),
            old(self).sets_flag(*final(self), doc_id@, r is Ok, false),
            match old(self).target(doc_id@) {
                Some(n) => {
                    let target = match output_path {
                        Some(p) => p,
                        None => old(self)@[n].path,
                    };
                    &&& r matches Ok((t, _)) ==> t == target
                    &&& exists|c: &mut C| {
                        &&& *c == old(self)@[n].core
                        &&& write.ensures((c, &target), written(r))
                        &&& final(self)@ == old(self)@.insert(n, DocumentSession {
                            core: *final(c),
                            path: old(self)@[n].path,
                            dirty: if r is Ok { false } else { old(self)@[n].dirty },
                        })
                    }
                },
                None => {
                    &&& r matches Err(ToolError::UnknownDoc { doc_id: d }) && d@ == doc_id@
                    &&& *final(self) == *old(self)
                },
            },
    {
        match self.locate(doc_id) {
            None => Err(ToolError::unknown_doc(doc_id)),
            Some(n) => {
                let mut s = self.take(n);
                let target = match output_path {
                    Some(p) => p,
                    None => s.path.clone(),
                };
                let w = write(&mut s.core, &target);
                let r = match w {
                    Ok(bytes) => {
                        s.dirty = false;
                        Ok((target, bytes))
                    },
                    Err(e) => Err(e),
                };
                self.put_back(n, s);
                r
            },
        }
    }

    /// Sets the value of a form object of `doc_id`. A request that names none of value, text
    /// and caption is refused before the store is looked at. Otherwise `engine` is handed the
    /// JSON request; its answer counts as success only when it reports `"ok":true`, and an
    /// answer without it means that there is no form object at the position. The document is
    /// marked as having unsaved edits exactly when the result is a success.
    pub fn set_form_value<F: FnOnce(&mut C, &String) -> Result<String, ToolError>>(
        &mut self,
        doc_id: &str,
        p: &SetFormValueParams,
        engine: F,
    ) -> (r: Result<String, ToolError>)
        requires
            old(self).wf(),
            forall|c: &mut C, req: &String| engine.requires((c, req)),
        ensures
            final(self).wf(),
            final(self).issued() == old(self).issued(),
            r matches Ok(answer) ==> occurs_in("\"ok\":true"@, answer@),
            names_nothing(*p) ==> (r matches Err(ToolError::FormValueMissing) && *final(self) == *old(self)),
            !names_nothing(*p) ==> old(self).sets_flag(*final(self), doc_id@, r is Ok, true),
            !names_nothing(*p) ==> match old(self).target(doc_id@) {
                Some(n) => exists|c: &mut C, req: String, w: Result<String, ToolError>|
                    #![trigger engine.ensures((c, &req), w)]
                    {
                        &&& *c == old(self)@[n].core
                        &&& req@ == json_object_text(form_members(*p))
                        &&& engine.ensures((c, &req), w)
                        &&& r == form_answer(w, *p)
                        &&& final(self)@ == old(self)@.insert(n, after_change(old(self)@[n], *final(c), r is Ok))
                    },
                None => {
                    &&& r matches Err(ToolError::UnknownDoc { doc_id: d }) && d@ == doc_id@
                    &&& *final(self) == *old(self)
                },
            },
    {
        let req = match form_value_request(p) {
            Ok(req) => req,
            Err(e) => return Err(e),
        };
        match self.locate(doc_id) {
            None => Err(ToolError::unknown_doc(doc_id)),
            Some(n) => {
                let mut s = self.take(n);
                let w = engine(&mut s.core, &req);
                let r = match w {
                    Ok(answer) => check_form_result(answer, p),
                    Err(e) => Err(e),
                };
                if r.is_ok() {
                    s.dirty = true;
                }
                self.put_back(n, s);
                r
            },
        }
    }

    /// Replaces the text of a paragraph of a table cell of `doc_id`: `length` reads the
    /// paragraph's current length, `delete` removes that many characters from its start when
    /// there are any, and `insert` writes the new text. The first failure ends the edit with its
    /// error. The document is marked as having unsaved edits as soon as anything was changed:
    /// when the deletion succeeded, whatever the insertion then returns, and when the insertion
    /// succeeded.
    pub fn set_cell_text<
        L: FnOnce(&C, usize) -> Result<usize, ToolError>,
        D: FnOnce(&mut C, usize, usize) -> Result<String, ToolError>,
        I: FnOnce(&mut C, usize) -> Result<String, ToolError>,
    >(&mut self, doc_id: &str, p: &SetCellTextParams, length: L, delete: D, insert: I) -> (r: Result<
        String,
        ToolError,
    >)
        requires
            old(self).wf(),
            forall|c: &C, cp: usize| length.requires((c, cp)),
            forall|c: &mut C, cp: usize, count: usize| delete.requires((c, cp, count)),
            forall|c: &mut C, cp: usize| insert.requires((c, cp)),
        ensures
            final(self).wf(),
            final(self).issued() == old(self).issued(),
            match old(self).target(doc_id@) {
                Some(n) => {
                    let cp = cell_para_of(*p);
                    let before = old(self)@[n];
                    exists|len: Result<usize, ToolError>| #[trigger] length.ensures((&before.core, cp), len) && match len {
                        Err(e) => r == Err::<String, ToolError>(e) && final(self)@ == old(self)@,
                        Ok(count) => if count > 0 {
                            exists|c1: &mut C, d: Result<String, ToolError>|
                                #![trigger delete.ensures((c1, cp, count), d)]
                                {
                                    &&& *c1 == before.core
                                    &&& delete.ensures((c1, cp, count), d)
                                    &&& match d {
                                        Err(e) => r == Err::<String, ToolError>(e) && final(self)@
                                            == old(self)@.insert(n, after_change(before, *final(c1), false)),
                                        Ok(_) => exists|c2: &mut C| #![trigger insert.ensures((c2, cp), r)] {
                                            &&& *c2 == *final(c1)
                                            &&& insert.ensures((c2, cp), r)
                                            &&& final(self)@ == old(self)@.insert(n, after_change(before, *final(c2), true))
                                        },
                                    }
                                }
                        } else {
                            exists|c2: &mut C| #![trigger insert.ensures((c2, cp), r)] {
                                &&& *c2 == before.core
                                &&& insert.ensures((c2, cp), r)
                                &&& final(self)@ == old(self)@.insert(n, after_change(before, *final(c2), r is Ok))
                            }
                        },
                    }
                },
                None => {
                    &&& r matches Err(ToolError::UnknownDoc { doc_id: d }) && d@ == doc_id@
                    &&& *final(self) == *old(self)
                },
            },
    {
        match self.locate(doc_id) {
            None => Err(ToolError::unknown_doc(doc_id)),
            Some(n) => {
                let mut s = self.take(n);
                let len = length(&s.core, p.cell_para_or_default());
                let old_len = match len {
                    Ok(l) => l,
                    Err(e) => {
                        self.put_back(n, s);
                        return Err(e);
                    },
                };
                let plan = p.plan(old_len);
                let mut changed = false;
                if let Some(count) = plan.delete_count {
                    match delete(&mut s.core, plan.cell_para, count) {
                        Ok(_) => {
                            changed = true;
                        },
                        Err(e) => {
                            self.put_back(n, s);
                            return Err(e);
                        },
                    }
                }
                let r = insert(&mut s.core, plan.cell_para);
                if changed || r.is_ok() {
                    s.dirty = true;
                }
                self.put_back(n, s);
                r
            },
        }
    }

    /// Replaces text in `doc_id`: every match through `all` when the request asks for all
    /// (the default), the first match through `first` otherwise; each is handed whether case
    /// matters (by default it does not). The document is marked as having unsaved edits when the
    /// replacement succeeds and keeps its flag when it fails. An unknown handle is an error and
    /// neither is run.
    pub fn replace_text<
        A: FnOnce(&mut C, bool) -> Result<String, ToolError>,
        O: FnOnce(&mut C, bool) -> Result<String, ToolError>,
    >(&mut self, doc_id: &str, p: &ReplaceTextParams, all: A, first: O) -> (r: Result<String, ToolError>)
        requires
            old(self).wf(),
            forall|c: &mut C, cs: bool| all.requires((c, cs)),
            forall|c: &mut C, cs: bool| first.requires((c, cs)),
        ensures
            final(self).wf(),
            final(self).issued() == old(self).issued(),
            old(self).sets_flag(*final(self), doc_id@, r is Ok, true),
            match old(self).target(doc_id@) {
                Some(n) => exists|c: &mut C| {
                    &&& *c == old(self)@[n].core
                    &&& if flag_or(p.all, true) {
                        all.ensures((c, flag_or(p.case_sensitive, false)), r)
                    } else {
                        first.ensures((c, flag_or(p.case_sensitive, false)), r)
                    }
                    &&& final(self)@ == old(self)@.insert(n, after_change(old(self)@[n], *final(c), r is Ok))
                },
                None => {
                    &&& r matches Err(ToolError::UnknownDoc { doc_id: d }) && d@ == doc_id@
                    &&& *final(self) == *old(self)
                },
            },
    {
        match self.locate(doc_id) {
            None => Err(ToolError::unknown_doc(doc_id)),
            Some(n) => {
                let mut s = self.take(n);
                let case_sensitive = p.case_sensitive_or_default();
                let r = if p.all_or_default() {
                    all(&mut s.core, case_sensitive)
                } else {
                    first(&mut s.core, case_sensitive)
                };
                if r.is_ok() {
                    s.dirty = true;
                }
                self.put_back(n, s);
                r
            },
        }
    }
}

} // verus!
