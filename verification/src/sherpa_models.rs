//! The table of installed Sherpa-ONNX models, keyed by model name: what a
//! scan of a model folder records, and how entries are added, looked up,
//! removed and weeded out.

use vstd::prelude::*;

use crate::local_tts::SherpaOnnxModelInfo;
use crate::path::{file_name, file_name_spec, join, join_spec, path_exists};
use crate::text::{owned, str_eq};

verus! {

/// The file names a model folder may hold its model under, in the order
/// they are looked for.
pub const MODEL_FILES: [&'static str; 3] = ["model.onnx", "tts-model.onnx", "sherpa-onnx-tts.onnx"];

/// No two entries share a model name.
pub open spec fn names_unique(s: Seq<SherpaOnnxModelInfo>) -> bool {
    forall|i: int, j: int|
        0 <= i < j < s.len() ==> #[trigger] s[i].model_name@ != #[trigger] s[j].model_name@
}

/// The entries as a map from model name to entry.
pub open spec fn models_map(s: Seq<SherpaOnnxModelInfo>) -> Map<Seq<char>, SherpaOnnxModelInfo>
    decreases s.len(),
{
    if s.len() == 0 {
        Map::empty()
    } else {
        models_map(s.drop_last()).insert(s.last().model_name@, s.last())
    }
}

/// The entry stored under `name`, if any.
pub open spec fn entry_of(m: Map<Seq<char>, SherpaOnnxModelInfo>, name: Seq<char>) -> Option<
    SherpaOnnxModelInfo,
> {
    if m.contains_key(name) {
        Some(m[name])
    } else {
        None
    }
}

/// The entries that are still marked valid.
pub open spec fn valid_entries(m: Map<Seq<char>, SherpaOnnxModelInfo>) -> Map<
    Seq<char>,
    SherpaOnnxModelInfo,
> {
    Map::new(|k: Seq<char>| m.contains_key(k) && m[k].is_valid, |k: Seq<char>| m[k])
}

pub open spec fn is_valid_entry(m: SherpaOnnxModelInfo) -> bool {
    m.is_valid
}

/// The sum of the entries' sizes.
pub open spec fn total_size(s: Seq<SherpaOnnxModelInfo>) -> int
    decreases s.len(),
{
    if s.len() == 0 {
        0
    } else {
        total_size(s.drop_last()) + s.last().size_bytes
    }
}

/// A name that no entry has is not in the map.
pub proof fn lemma_absent(s: Seq<SherpaOnnxModelInfo>, k: Seq<char>)
    requires
        forall|i: int| 0 <= i < s.len() ==> #[trigger] s[i].model_name@ != k,
    ensures
        !models_map(s).contains_key(k),
    decreases s.len(),
{
    if s.len() > 0 {
        lemma_absent(s.drop_last(), k);
        assert(s.last() == s[s.len() - 1]);
    }
}

/// Every entry's name is a key of the map.
pub proof fn lemma_contains(s: Seq<SherpaOnnxModelInfo>, i: int)
    requires
        0 <= i < s.len(),
    ensures
        models_map(s).contains_key(s[i].model_name@),
    decreases s.len(),
{
    if i < s.len() - 1 {
        assert(s.drop_last()[i] == s[i]);
        lemma_contains(s.drop_last(), i);
    }
}

/// Each entry is what the map holds under its name.
pub proof fn lemma_at(s: Seq<SherpaOnnxModelInfo>, i: int)
    requires
        names_unique(s),
        0 <= i < s.len(),
    ensures
        models_map(s).contains_key(s[i].model_name@),
        models_map(s)[s[i].model_name@] == s[i],
    decreases s.len(),
{
    if i < s.len() - 1 {
        let d = s.drop_last();
        assert(d[i] == s[i]);
        assert(names_unique(d)) by {
            assert forall|a: int, b: int| 0 <= a < b < d.len() implies #[trigger] d[a].model_name@
                != #[trigger] d[b].model_name@ by {
                assert(d[a] == s[a] && d[b] == s[b]);
            }
        }
        lemma_at(d, i);
        assert(s[i].model_name@ != s[s.len() - 1].model_name@);
    }
}

/// With distinct names the map has one key per entry.
pub proof fn lemma_len(s: Seq<SherpaOnnxModelInfo>)
    requires
        names_unique(s),
    ensures
        models_map(s).dom().finite(),
        models_map(s).dom().len() == s.len(),
    decreases s.len(),
{
    if s.len() > 0 {
        let d = s.drop_last();
        assert(names_unique(d)) by {
            assert forall|a: int, b: int| 0 <= a < b < d.len() implies #[trigger] d[a].model_name@
                != #[trigger] d[b].model_name@ by {
                assert(d[a] == s[a] && d[b] == s[b]);
            }
        }
        lemma_len(d);
        assert forall|i: int| 0 <= i < d.len() implies #[trigger] d[i].model_name@
            != s.last().model_name@ by {
            assert(d[i] == s[i]);
        }
        lemma_absent(d, s.last().model_name@);
    }
}

/// Replacing an entry by one of the same name replaces it in the map.
pub proof fn lemma_update(s: Seq<SherpaOnnxModelInfo>, i: int, x: SherpaOnnxModelInfo)
    requires
        names_unique(s),
        0 <= i < s.len(),
        s[i].model_name@ == x.model_name@,
    ensures
        names_unique(s.update(i, x)),
        models_map(s.update(i, x)) == models_map(s).insert(x.model_name@, x),
    decreases s.len(),
{
    let t = s.update(i, x);
    assert forall|a: int, b: int| 0 <= a < b < t.len() implies #[trigger] t[a].model_name@
        != #[trigger] t[b].model_name@ by {
        assert(s[a].model_name@ != s[b].model_name@);
    }
    let d = s.drop_last();
    assert(names_unique(d)) by {
        assert forall|a: int, b: int| 0 <= a < b < d.len() implies #[trigger] d[a].model_name@
            != #[trigger] d[b].model_name@ by {
            assert(d[a] == s[a] && d[b] == s[b]);
        }
    }
    if i == s.len() - 1 {
        assert(t.drop_last() =~= d);
        assert(models_map(t) =~= models_map(s).insert(x.model_name@, x));
    } else {
        assert(t.drop_last() =~= d.update(i, x));
        assert(d[i] == s[i]);
        lemma_update(d, i, x);
        assert(s.last().model_name@ != x.model_name@) by {
            assert(s[i].model_name@ != s[s.len() - 1].model_name@);
        }
        assert(t.last() == s.last());
        assert(models_map(t) =~= models_map(s).insert(x.model_name@, x));
    }
}

/// Taking an entry out takes its name out of the map.
pub proof fn lemma_remove(s: Seq<SherpaOnnxModelInfo>, i: int)
    requires
        names_unique(s),
        0 <= i < s.len(),
    ensures
        names_unique(s.remove(i)),
        models_map(s.remove(i)) == models_map(s).remove(s[i].model_name@),
    decreases s.len(),
{
    let t = s.remove(i);
    let n = s[i].model_name@;
    assert forall|a: int, b: int| 0 <= a < b < t.len() implies #[trigger] t[a].model_name@
        != #[trigger] t[b].model_name@ by {
        let a2 = if a < i {
            a
        } else {
            a + 1
        };
        let b2 = if b < i {
            b
        } else {
            b + 1
        };
        assert(t[a] == s[a2] && t[b] == s[b2]);
        assert(s[a2].model_name@ != s[b2].model_name@);
    }
    let d = s.drop_last();
    assert(names_unique(d)) by {
        assert forall|a: int, b: int| 0 <= a < b < d.len() implies #[trigger] d[a].model_name@
            != #[trigger] d[b].model_name@ by {
            assert(d[a] == s[a] && d[b] == s[b]);
        }
    }
    if i == s.len() - 1 {
        assert(t =~= d);
        assert forall|j: int| 0 <= j < d.len() implies #[trigger] d[j].model_name@ != n by {
            assert(d[j] == s[j]);
        }
        lemma_absent(d, n);
        assert(models_map(t) =~= models_map(s).remove(n));
    } else {
        assert(t.drop_last() =~= d.remove(i));
        assert(t.last() == s.last());
        assert(d[i] == s[i]);
        lemma_remove(d, i);
        assert(s.last().model_name@ != n) by {
            assert(s[i].model_name@ != s[s.len() - 1].model_name@);
        }
        assert(models_map(t) =~= models_map(s).remove(n));
    }
}

/// Keeping the valid entries keeps exactly the valid part of the map.
pub proof fn lemma_filter(s: Seq<SherpaOnnxModelInfo>)
    requires
        names_unique(s),
    ensures
        names_unique(s.filter(|m: SherpaOnnxModelInfo| is_valid_entry(m))),
        models_map(s.filter(|m: SherpaOnnxModelInfo| is_valid_entry(m))) == valid_entries(
            models_map(s),
        ),
    decreases s.len(),
{
    reveal(Seq::filter);
    let f = s.filter(|m: SherpaOnnxModelInfo| is_valid_entry(m));
    if s.len() == 0 {
        assert(f =~= Seq::<SherpaOnnxModelInfo>::empty());
        assert(models_map(f) =~= valid_entries(models_map(s)));
    } else {
        let d = s.drop_last();
        assert(names_unique(d)) by {
            assert forall|a: int, b: int| 0 <= a < b < d.len() implies #[trigger] d[a].model_name@
                != #[trigger] d[b].model_name@ by {
                assert(d[a] == s[a] && d[b] == s[b]);
            }
        }
        lemma_filter(d);
        let fd = d.filter(|m: SherpaOnnxModelInfo| is_valid_entry(m));
        assert(f == if is_valid_entry(s.last()) {
            fd.push(s.last())
        } else {
            fd
        });
        let n = s.last().model_name@;
        assert forall|j: int| 0 <= j < d.len() implies #[trigger] d[j].model_name@ != n by {
            assert(d[j] == s[j]);
        }
        lemma_absent(d, n);
        if is_valid_entry(s.last()) {
            assert forall|j: int| 0 <= j < fd.len() implies #[trigger] fd[j].model_name@ != n by {
                if fd[j].model_name@ == n {
                    lemma_at(fd, j);
                }
            }
            assert forall|a: int, b: int| 0 <= a < b < f.len() implies #[trigger] f[a].model_name@
                != #[trigger] f[b].model_name@ by {
                if b == f.len() - 1 {
                    assert(f[a] == fd[a]);
                } else {
                    assert(f[a] == fd[a] && f[b] == fd[b]);
                }
            }
        }
        let ms = models_map(s);
        let md = models_map(d);
        assert(ms == md.insert(n, s.last()));
        assert(models_map(fd) == valid_entries(md));
        if is_valid_entry(s.last()) {
            assert(f.drop_last() =~= fd);
            assert(models_map(f) == valid_entries(md).insert(n, s.last()));
        } else {
            assert(!valid_entries(md).contains_key(n));
        }
        assert forall|k: Seq<char>| #[trigger] models_map(f).contains_key(k) <==> valid_entries(
            ms,
        ).contains_key(k) by {}
        assert forall|k: Seq<char>| #[trigger] models_map(f).contains_key(k) implies models_map(f)[k]
            == valid_entries(ms)[k] by {}
        assert(models_map(f) =~= valid_entries(ms));
    }
}

/// A copy of an entry, field by field.
pub fn copy_info(m: &SherpaOnnxModelInfo) -> (r: SherpaOnnxModelInfo)
    ensures
        r == *m,
{
    SherpaOnnxModelInfo {
        model_name: m.model_name.clone(),
        model_path: m.model_path.clone(),
        model_type: m.model_type.clone(),
        language: m.language.clone(),
        voice: m.voice.clone(),
        size_bytes: m.size_bytes,
        is_valid: m.is_valid,
    }
}

/// The installed models, keyed by model name, under a base folder.
pub struct SherpaOnnxManager {
    models: Vec<SherpaOnnxModelInfo>,
    base_path: String,
}

impl View for SherpaOnnxManager {
    type V = Map<Seq<char>, SherpaOnnxModelInfo>;

    closed spec fn view(&self) -> Map<Seq<char>, SherpaOnnxModelInfo> {
        models_map(self.models@)
    }
}

impl SherpaOnnxManager {
    /// The table is well formed: no two entries share a name.
    pub closed spec fn wf(&self) -> bool {
        names_unique(self.models@)
    }

    /// The entries in the order they were first added.
    pub closed spec fn entries(&self) -> Seq<SherpaOnnxModelInfo> {
        self.models@
    }

    /// The folder the table was made for.
    pub closed spec fn base(&self) -> Seq<char> {
        self.base_path@
    }

    /// The entries and the map agree: the map is [`models_map`] of the
    /// entries, and it has one key per entry.
    pub proof fn lemma_view(&self)
        requires
            self.wf(),
        ensures
            self@ == models_map(self.entries()),
            names_unique(self.entries()),
            self@.dom().finite(),
            self@.dom().len() == self.entries().len(),
    {
        lemma_len(self.models@);
    }

    /// An empty table for models under `base_path`.
    pub fn new(base_path: String) -> (r: Self)
        ensures
            r.wf(),
            r@ == Map::<Seq<char>, SherpaOnnxModelInfo>::empty(),
            r.entries() == Seq::<SherpaOnnxModelInfo>::empty(),
            r.base() == base_path@,
    {
        let r = SherpaOnnxManager { models: Vec::new(), base_path };
        assert(r.models@ =~= Seq::<SherpaOnnxModelInfo>::empty());
        r
    }

    /// The folder models are kept in.
    pub fn model_dir(&self) -> (r: String)
        ensures
            r@ == join_spec(self.base(), "sherpa_onnx_models"@),
    {
        join(self.base_path.as_str(), "sherpa_onnx_models")
    }

    /// Every entry.
    pub fn get_models(&self) -> (r: Vec<SherpaOnnxModelInfo>)
        ensures
            r@ == self.entries(),
    {
        let mut out: Vec<SherpaOnnxModelInfo> = Vec::new();
        let mut k: usize = 0;
        while k < self.models.len()
            invariant
                k <= self.models@.len(),
                out@ == self.models@.take(k as int),
            decreases self.models.len() - k,
        {
            out.push(copy_info(&self.models[k]));
            assert(out@ =~= self.models@.take(k + 1));
            k += 1;
        }
        assert(self.models@.take(self.models.len() as int) =~= self.models@);
        out
    }

    /// Where the entry named `name` stands, if there is one.
    fn index_of(&self, name: &str) -> (r: Option<usize>)
        ensures
            match r {
                Some(i) => i < self.models@.len() && self.models@[i as int].model_name@ == name@,
                None => forall|i: int|
                    0 <= i < self.models@.len() ==> #[trigger] self.models@[i].model_name@ != name@,
            },
    {
        let mut k: usize = 0;
        while k < self.models.len()
            invariant
                k <= self.models@.len(),
                forall|i: int| 0 <= i < k ==> #[trigger] self.models@[i].model_name@ != name@,
            decreases self.models.len() - k,
        {
            if str_eq(self.models[k].model_name.as_str(), name) {
                return Some(k);
            }
            k += 1;
        }
        None
    }

    /// The entry named `name`.
    pub fn get_model(&self, name: &str) -> (r: Option<SherpaOnnxModelInfo>)
        requires
            self.wf(),
        ensures
            r == entry_of(self@, name@),
    {
        match self.index_of(name) {
            Some(i) => {
                proof {
                    lemma_at(self.models@, i as int);
                }
                Some(copy_info(&self.models[i]))
            },
            None => {
                proof {
                    lemma_absent(self.models@, name@);
                }
                None
            },
        }
    }

    /// Whether an entry is named `name`.
    pub fn model_exists(&self, name: &str) -> (r: bool)
        ensures
            r == self@.contains_key(name@),
    {
        match self.index_of(name) {
            Some(i) => {
                proof {
                    lemma_contains(self.models@, i as int);
                }
                true
            },
            None => {
                proof {
                    lemma_absent(self.models@, name@);
                }
                false
            },
        }
    }

    /// Records `info` under its name, in place of any entry of that name.
    pub fn add_model(&mut self, info: SherpaOnnxModelInfo)
        requires
            old(self).wf(),
        ensures
            final(self).wf(),
            final(self)@ == old(self)@.insert(info.model_name@, info),
            final(self).base() == old(self).base(),
    {
        match self.index_of(info.model_name.as_str()) {
            Some(i) => {
                proof {
                    lemma_update(self.models@, i as int, info);
                }
                self.models.set(i, info);
            },
            None => {
                let ghost before = self.models@;
                self.models.push(info);
                proof {
                    assert(self.models@.drop_last() =~= before);
                    assert forall|a: int, b: int| 0 <= a < b < self.models@.len() implies #[trigger] self.models@[a].model_name@
                        != #[trigger] self.models@[b].model_name@ by {
                        if b == before.len() {
                            assert(self.models@[a] == before[a]);
                        } else {
                            assert(self.models@[a] == before[a] && self.models@[b] == before[b]);
                        }
                    }
                }
            },
        }
    }

    /// Takes the entry named `name` out of the table, and hands it back.
    pub fn remove_model(&mut self, name: &str) -> (r: Option<SherpaOnnxModelInfo>)
        requires
            old(self).wf(),
        ensures
            final(self).wf(),
            final(self)@ == old(self)@.remove(name@),
            r == entry_of(old(self)@, name@),
            final(self).base() == old(self).base(),
    {
        match self.index_of(name) {
            Some(i) => {
                proof {
                    lemma_at(self.models@, i as int);
                    lemma_remove(self.models@, i as int);
                }
                let m = self.models.remove(i);
                Some(m)
            },
            None => {
                proof {
                    lemma_absent(self.models@, name@);
                    assert(models_map(self.models@).remove(name@) =~= models_map(self.models@));
                }
                None
            },
        }
    }

    /// The model file of the entry named `name`.
    pub fn get_model_path(&self, name: &str) -> (r: Option<String>)
        requires
            self.wf(),
        ensures
            match entry_of(self@, name@) {
                Some(m) => r == Some(m.model_path),
                None => r is None,
            },
    {
        match self.get_model(name) {
            Some(m) => Some(m.model_path),
            None => None,
        }
    }

    /// The model type of the entry named `name`.
    pub fn get_model_type(&self, name: &str) -> (r: Option<String>)
        requires
            self.wf(),
        ensures
            match entry_of(self@, name@) {
                Some(m) => r == Some(m.model_type),
                None => r is None,
            },
    {
        match self.get_model(name) {
            Some(m) => Some(m.model_type),
            None => None,
        }
    }

    /// The language of the entry named `name`.
    pub fn get_model_language(&self, name: &str) -> (r: Option<String>)
        requires
            self.wf(),
        ensures
            match entry_of(self@, name@) {
                Some(m) => r == Some(m.language),
                None => r is None,
            },
    {
        match self.get_model(name) {
            Some(m) => Some(m.language),
            None => None,
        }
    }

    /// The voice of the entry named `name`.
    pub fn get_model_voice(&self, name: &str) -> (r: Option<String>)
        requires
            self.wf(),
        ensures
            match entry_of(self@, name@) {
                Some(m) => r == Some(m.voice),
                None => r is None,
            },
    {
        match self.get_model(name) {
            Some(m) => Some(m.voice),
            None => None,
        }
    }

    /// The size of the model file of the entry named `name`.
    pub fn get_model_size(&self, name: &str) -> (r: Option<u64>)
        requires
            self.wf(),
        ensures
            match entry_of(self@, name@) {
                Some(m) => r == Some(m.size_bytes),
                None => r is None,
            },
    {
        match self.get_model(name) {
            Some(m) => Some(m.size_bytes),
            None => None,
        }
    }

    /// Whether the model file of the entry named `name` is still on disk;
    /// an error when no entry has that name. (What is on disk is not a
    /// function of the table, so only which of the two outcomes comes is
    /// stated.)
    pub fn validate_model(&self, name: &str) -> (r: Result<bool, String>)
        requires
            self.wf(),
        ensures
            self@.contains_key(name@) <==> r is Ok,
            !self@.contains_key(name@) ==> (r matches Err(e) && e@ == "Model not found: "@ + name@),
    {
        match self.get_model(name) {
            Some(m) => Ok(path_exists(m.model_path.as_str())),
            None => {
                let mut e = owned("Model not found: ");
                e.append(name);
                Err(e)
            },
        }
    }

    /// The summed size of all entries and their number.
    pub fn get_storage_stats(&self) -> (r: (u64, usize))
        requires
            self.wf(),
            total_size(self.entries()) <= u64::MAX,
        ensures
            r.0 == total_size(self.entries()),
            r.1 == self@.dom().len(),
    {
        let mut total: u64 = 0;
        let mut k: usize = 0;
        while k < self.models.len()
            invariant
                k <= self.models@.len(),
                total == total_size(self.models@.take(k as int)),
                total_size(self.models@) <= u64::MAX,
            decreases self.models.len() - k,
        {
            assert(self.models@.take(k + 1).drop_last() =~= self.models@.take(k as int));
            proof {
                lemma_total_prefix(self.models@, k + 1);
            }
            total = total + self.models[k].size_bytes;
            k += 1;
        }
        assert(self.models@.take(self.models.len() as int) =~= self.models@);
        proof {
            lemma_len(self.models@);
        }
        (total, self.models.len())
    }

    /// Drops every entry no longer marked valid, keeping the others in
    /// order, and says how many were dropped.
    pub fn cleanup_invalid_models(&mut self) -> (r: usize)
        requires
            old(self).wf(),
        ensures
            final(self).wf(),
            final(self)@ == valid_entries(old(self)@),
            final(self).entries() == old(self).entries().filter(|m: SherpaOnnxModelInfo| is_valid_entry(m)),
            r == old(self).entries().len() - final(self).entries().len(),
            final(self).base() == old(self).base(),
    {
        let mut all: Vec<SherpaOnnxModelInfo> = Vec::new();
        std::mem::swap(&mut all, &mut self.models);
        let mut kept: Vec<SherpaOnnxModelInfo> = Vec::new();
        let mut removed: usize = 0;
        let mut k: usize = 0;
        while k < all.len()
            invariant
                k <= all@.len(),
                kept@ == all@.take(k as int).filter(|m: SherpaOnnxModelInfo| is_valid_entry(m)),
                kept@.len() <= k,
                removed == k - kept@.len(),
            decreases all.len() - k,
        {
            reveal(Seq::filter);
            assert(all@.take(k + 1).drop_last() =~= all@.take(k as int));
            assert(all@.take(k + 1).last() == all@[k as int]);
            if all[k].is_valid {
                kept.push(copy_info(&all[k]));
            } else {
                removed = removed + 1;
            }
            k += 1;
        }
        assert(all@.take(all.len() as int) =~= all@);
        proof {
            lemma_filter(all@);
        }
        self.models = kept;
        removed
    }
}

/// A prefix of the entries never sums to more than all of them.
pub proof fn lemma_total_prefix(s: Seq<SherpaOnnxModelInfo>, k: int)
    requires
        0 <= k <= s.len(),
    ensures
        total_size(s.take(k)) <= total_size(s),
        total_size(s.take(k)) >= 0,
    decreases s.len(),
{
    if k == s.len() {
        assert(s.take(k) =~= s);
    } else {
        assert(s.take(k) =~= s.drop_last().take(k));
        lemma_total_prefix(s.drop_last(), k);
    }
    lemma_total_nonnegative(s);
}

pub proof fn lemma_total_nonnegative(s: Seq<SherpaOnnxModelInfo>)
    ensures
        total_size(s) >= 0,
    decreases s.len(),
{
    if s.len() > 0 {
        lemma_total_nonnegative(s.drop_last());
    }
}

/// The path of the `i`-th model file a folder may hold.
pub open spec fn candidate_spec(model_dir: Seq<char>, i: int) -> Seq<char> {
    join_spec(model_dir, MODEL_FILES@[i]@)
}

/// The first candidate present, by its position.
pub open spec fn first_present_spec(present: Seq<bool>) -> Option<int>
    decreases present.len(),
{
    if present.len() == 0 {
        None
    } else {
        match first_present_spec(present.drop_last()) {
            Some(i) => Some(i),
            None => if present.last() {
                Some(present.len() - 1)
            } else {
                None
            },
        }
    }
}

/// Given which of the candidate files are present (in the order they are
/// looked for), the model file: the first candidate present.
pub fn first_model_file(model_dir: &str, present: &[bool]) -> (r: Option<String>)
    requires
        present@.len() == 3,
    ensures
        match first_present_spec(present@) {
            Some(i) => r matches Some(p) && p@ == candidate_spec(model_dir@, i),
            None => r is None,
        },
{
    let mut k: usize = 0;
    while k < 3
        invariant
            k <= 3,
            present@.len() == 3,
            first_present_spec(present@.take(k as int)) is None,
        decreases 3 - k,
    {
        assert(present@.take(k + 1).drop_last() =~= present@.take(k as int));
        assert(present@.take(k + 1).last() == present@[k as int]);
        if present[k] {
            proof {
                lemma_first_present_prefix(present@, k as int + 1);
            }
            return Some(join(model_dir, MODEL_FILES[k]));
        }
        k += 1;
    }
    assert(present@.take(3) =~= present@);
    None
}

/// Once a prefix has a present candidate, the whole has the same first one.
pub proof fn lemma_first_present_prefix(present: Seq<bool>, k: int)
    requires
        0 <= k <= present.len(),
        first_present_spec(present.take(k)) is Some,
    ensures
        first_present_spec(present) == first_present_spec(present.take(k)),
    decreases present.len(),
{
    if k < present.len() {
        assert(present.take(k) =~= present.drop_last().take(k));
        lemma_first_present_prefix(present.drop_last(), k);
    } else {
        assert(present.take(k) =~= present);
    }
}

/// The model file of a folder, looked for on disk among the candidates in
/// order. What is on disk is not a function of the folder's name, so the
/// contract says only that the result, when there is one, is a candidate;
/// [`first_model_file`] states which one.
pub fn pick_model_file(model_dir: &str) -> (r: Option<String>)
    ensures
        r matches Some(p) ==> exists|i: int| 0 <= i < 3 && p@ == #[trigger] candidate_spec(model_dir@, i),
{
    let mut present: Vec<bool> = Vec::new();
    let mut k: usize = 0;
    while k < 3
        invariant
            k <= 3,
            present@.len() == k,
        decreases 3 - k,
    {
        let candidate = join(model_dir, MODEL_FILES[k]);
        present.push(path_exists(candidate.as_str()));
        k += 1;
    }
    let r = first_model_file(model_dir, present.as_slice());
    proof {
        if r is Some {
            let i = first_present_spec(present@).unwrap();
            lemma_first_present_range(present@);
            assert(0 <= i < 3);
        }
    }
    r
}

pub proof fn lemma_first_present_range(present: Seq<bool>)
    ensures
        first_present_spec(present) matches Some(i) ==> 0 <= i < present.len(),
    decreases present.len(),
{
    if present.len() > 0 {
        lemma_first_present_range(present.drop_last());
    }
}

/// The settings a model folder's configuration gives, each defaulting
/// when absent: type `vits`, language `zh`, voice `female`.
pub fn config_or_defaults(model_type: Option<String>, language: Option<String>, voice: Option<String>) -> (r: (
    String,
    String,
    String,
))
    ensures
        r.0@ == (match model_type {
            Some(t) => t@,
            None => "vits"@,
        }),
        r.1@ == (match language {
            Some(l) => l@,
            None => "zh"@,
        }),
        r.2@ == (match voice {
            Some(v) => v@,
            None => "female"@,
        }),
{
    let t = match model_type {
        Some(t) => t,
        None => owned("vits"),
    };
    let l = match language {
        Some(l) => l,
        None => owned("zh"),
    };
    let v = match voice {
        Some(v) => v,
        None => owned("female"),
    };
    (t, l, v)
}

/// The entry a model folder makes: named by the folder, with the model
/// file found in it, its size, and the folder's settings (or the defaults
/// when it has no configuration file). Errors when the folder has no name
/// or no model file.
pub fn parse_model_directory(
    model_dir: &str,
    model_path: Option<String>,
    size_bytes: u64,
    config: Option<(String, String, String)>,
) -> (r: Result<SherpaOnnxModelInfo, String>)
    ensures
        file_name_spec(model_dir@) is None ==> (r matches Err(e) && e@ == "Invalid model directory name"@),
        file_name_spec(model_dir@) is Some && model_path is None ==> (r matches Err(e) && e@
            == "No model file found in directory"@),
        file_name_spec(model_dir@) is Some && model_path is Some ==> (r matches Ok(m) && {
            &&& m.model_name@ == file_name_spec(model_dir@).unwrap()
            &&& m.model_path == model_path.unwrap()
            &&& m.size_bytes == size_bytes
            &&& m.is_valid
            &&& match config {
                Some(c) => m.model_type == c.0 && m.language == c.1 && m.voice == c.2,
                None => m.model_type@ == "vits"@ && m.language@ == "zh"@ && m.voice@ == "female"@,
            }
        }),
{
    let model_name = match file_name(model_dir) {
        Some(n) => n,
        None => return Err(owned("Invalid model directory name")),
    };
    let model_path = match model_path {
        Some(p) => p,
        None => return Err(owned("No model file found in directory")),
    };
    let (model_type, language, voice) = match config {
        Some(c) => c,
        None => (owned("vits"), owned("zh"), owned("female")),
    };
    Ok(SherpaOnnxModelInfo { model_name, model_path, model_type, language, voice, size_bytes, is_valid: true })
}

/// A lookup after an addition gives back the entry added under its name,
/// and what was there before under any other name.
pub proof fn law_get_after_add(t: SherpaOnnxManager, info: SherpaOnnxModelInfo, name: Seq<char>)
    ensures
        entry_of(t@.insert(info.model_name@, info), name) == if name == info.model_name@ {
            Some(info)
        } else {
            entry_of(t@, name)
        },
{
}

/// After a removal the name is gone, and every other name gives what it
/// gave before.
pub proof fn law_get_after_remove(t: SherpaOnnxManager, removed: Seq<char>, name: Seq<char>)
    ensures
        entry_of(t@.remove(removed), name) == if name == removed {
            None
        } else {
            entry_of(t@, name)
        },
{
}

/// After a clean-up a name gives its entry if that entry was valid, and
/// nothing otherwise.
pub proof fn law_cleanup_keeps_valid(t: SherpaOnnxManager, name: Seq<char>)
    ensures
        entry_of(valid_entries(t@), name) == match entry_of(t@, name) {
            Some(m) => if m.is_valid {
                Some(m)
            } else {
                None
            },
            None => None,
        },
{
}

/// Adding a model under a new name adds one to the count the storage
/// statistics report; adding under a name already there leaves it.
pub proof fn law_count_after_add(t: SherpaOnnxManager, info: SherpaOnnxModelInfo)
    requires
        t.wf(),
    ensures
        t@.insert(info.model_name@, info).dom().len() == if t@.contains_key(info.model_name@) {
            t@.dom().len()
        } else {
            t@.dom().len() + 1
        },
{
    t.lemma_view();
    if t@.contains_key(info.model_name@) {
        assert(t@.insert(info.model_name@, info).dom() =~= t@.dom());
    }
}

} // verus!
