//! Shared application state: settings, the workspace registry, and the
//! mirror of the supervised process's running flag and pid.
//!
//! Every read sees either the prior or the fully updated value: the exec
//! operations here replace whole values, never single fields of a value.

use vstd::prelude::*;
use vstd::string::StringExecFns;

verus! {

/// Client-facing settings, replaced wholesale on update.
pub struct AppSettings {
    pub theme: String,
    pub julia_server_url: String,
    pub auto_start_julia: bool,
    pub default_material: String,
    pub default_tissue: String,
    pub default_voxel_size: u64,
}

impl Default for AppSettings {
    fn default() -> (s: AppSettings)
        ensures
            s.theme@ == "dark"@,
            s.julia_server_url@ == "http://localhost:8081"@,
            s.auto_start_julia == true,
            s.default_material@ == "PCL"@,
            s.default_tissue@ == "bone"@,
            s.default_voxel_size == 10,
    {
        AppSettings {
            theme: String::from_str("dark"),
            julia_server_url: String::from_str("http://localhost:8081"),
            auto_start_julia: true,
            default_material: String::from_str("PCL"),
            default_tissue: String::from_str("bone"),
            default_voxel_size: 10,
        }
    }
}

impl AppSettings {
    /// A field-by-field copy; the caller gets a value equal to `self`.
    pub fn duplicate(&self) -> (r: AppSettings)
        ensures
            r == *self,
    {
        AppSettings {
            theme: self.theme.clone(),
            julia_server_url: self.julia_server_url.clone(),
            auto_start_julia: self.auto_start_julia,
            default_material: self.default_material.clone(),
            default_tissue: self.default_tissue.clone(),
            default_voxel_size: self.default_voxel_size,
        }
    }
}

/// One workspace known to the application, keyed by its `id`.
pub struct WorkspaceState {
    pub id: String,
    pub name: String,
    pub file_path: Option<String>,
    pub modified: bool,
}

impl WorkspaceState {
    /// A field-by-field copy; the caller gets a value equal to `self`.
    pub fn duplicate(&self) -> (r: WorkspaceState)
        ensures
            r == *self,
    {
        WorkspaceState {
            id: self.id.clone(),
            name: self.name.clone(),
            file_path: match &self.file_path {
                Some(p) => Some(p.clone()),
                None => None,
            },
            modified: self.modified,
        }
    }
}

/// The single source of truth shared by the supervisor and the gateways.
///
/// `julia_running` and `julia_pid` mirror the supervised process: the pid
/// is present exactly when the running flag is set (`wf`).
pub struct AppState {
    pub julia_running: bool,
    pub julia_pid: Option<u32>,
    pub settings: AppSettings,
    pub workspaces: Vec<WorkspaceState>,
    pub current_workspace: Option<String>,
}

/// A snapshot of the supervised process as reported to clients.
pub struct JuliaStatus {
    pub running: bool,
    pub pid: Option<u32>,
    pub url: String,
}

impl AppState {
    /// The process mirror is consistent: a pid is recorded exactly when the
    /// process is recorded as running.
    pub open spec fn process_mirror_wf(self) -> bool {
        self.julia_running <==> self.julia_pid is Some
    }

    /// Workspace ids are unique, so a lookup by id is unambiguous.
    pub open spec fn workspaces_wf(self) -> bool {
        forall|i: int, j: int|
            0 <= i < j < self.workspaces@.len() ==> self.workspaces@[i].id@
                != self.workspaces@[j].id@
    }

    pub open spec fn wf(self) -> bool {
        self.process_mirror_wf() && self.workspaces_wf()
    }

    pub fn new() -> (st: AppState)
        ensures
            st.wf(),
            st.julia_running == false,
            st.julia_pid is None,
            st.workspaces@.len() == 0,
            st.current_workspace is None,
            st.settings.julia_server_url@ == "http://localhost:8081"@,
            st.settings.auto_start_julia == true,
    {
        AppState {
            julia_running: false,
            julia_pid: None,
            settings: AppSettings::default(),
            workspaces: Vec::new(),
            current_workspace: None,
        }
    }
}

/// The value of `st` once a live process with id `pid` has been recorded.
pub open spec fn with_process(st: AppState, pid: u32) -> AppState {
    AppState { julia_running: true, julia_pid: Some(pid), ..st }
}

/// The value of `st` once the process record has been cleared.
pub open spec fn without_process(st: AppState) -> AppState {
    AppState { julia_running: false, julia_pid: None, ..st }
}

/// Reports the process mirror together with the backend URL in force.
pub fn get_julia_status(st: &AppState) -> (r: JuliaStatus)
    ensures
        r.running == st.julia_running,
        r.pid == st.julia_pid,
        r.url == st.settings.julia_server_url,
{
    JuliaStatus {
        running: st.julia_running,
        pid: st.julia_pid,
        url: st.settings.julia_server_url.clone(),
    }
}

/// Hands back a copy of the settings currently in force.
pub fn get_app_settings(st: &AppState) -> (s: AppSettings)
    ensures
        s == st.settings,
{
    st.settings.duplicate()
}

/// Replaces the settings as one whole value; nothing else changes.
pub fn set_app_settings(st: &mut AppState, settings: AppSettings) -> (r: Result<(), String>)
    ensures
        r is Ok,
        *final(st) == (AppState { settings, ..*old(st) }),
        final(st).wf() == old(st).wf(),
{
    st.settings = settings;
    Ok(())
}

/// Looks a workspace up by id; the copy handed back is the unique record
/// under that id, or `None` when no record carries it.
pub fn get_workspace(st: &AppState, id: &str) -> (r: Option<WorkspaceState>)
    requires
        st.workspaces_wf(),
    ensures
        match r {
            Some(w) => exists|i: int|
                0 <= i < st.workspaces@.len() && st.workspaces@[i] == w && w.id@ == id@,
            None => forall|i: int|
                0 <= i < st.workspaces@.len() ==> st.workspaces@[i].id@ != id@,
        },
{
    let n: usize = st.workspaces.len();
    let mut k: usize = 0;
    while k < n
        invariant
            n == st.workspaces@.len(),
            k <= n,
            forall|i: int| 0 <= i < k ==> st.workspaces@[i].id@ != id@,
        decreases n - k,
    {
        if str_eq(st.workspaces[k].id.as_str(), id) {
            return Some(st.workspaces[k].duplicate());
        }
        k += 1;
    }
    None
}

/// Inserts the record, or replaces the record that already carries its id.
pub fn put_workspace(st: &mut AppState, w: WorkspaceState)
    requires
        old(st).workspaces_wf(),
    ensures
        final(st).workspaces_wf(),
        final(st).process_mirror_wf() == old(st).process_mirror_wf(),
        final(st).julia_running == old(st).julia_running,
        final(st).julia_pid == old(st).julia_pid,
        final(st).settings == old(st).settings,
        final(st).current_workspace == old(st).current_workspace,
        // the record is present under its id
        exists|i: int|
            0 <= i < final(st).workspaces@.len() && final(st).workspaces@[i] == w,
        // every other id keeps exactly its prior record
        forall|j: int|
            0 <= j < old(st).workspaces@.len() && old(st).workspaces@[j].id@ != w.id@
                ==> final(st).workspaces@.contains(old(st).workspaces@[j]),
        // nothing under a foreign id appears
        forall|i: int|
            0 <= i < final(st).workspaces@.len() ==> final(st).workspaces@[i] == w
                || (old(st).workspaces@.contains(final(st).workspaces@[i])
                && final(st).workspaces@[i].id@ != w.id@),
{
    let n: usize = st.workspaces.len();
    let mut k: usize = 0;
    while k < n
        invariant
            *st == *old(st),
            old(st).workspaces_wf(),
            n == st.workspaces@.len(),
            k <= n,
            forall|i: int| 0 <= i < k ==> st.workspaces@[i].id@ != w.id@,
        decreases n - k,
    {
        if str_eq(st.workspaces[k].id.as_str(), w.id.as_str()) {
            let ghost prior = st.workspaces@;
            let ghost wid = w.id@;
            st.workspaces.set(k, w);
            proof {
                let cur = st.workspaces@;
                let pre = old(st).workspaces@;
                assert(prior == pre);
                assert(cur[k as int] == w);
                assert(cur[k as int].id@ == wid);
                assert(pre[k as int].id@ == wid);
                assert(forall|j: int| 0 <= j < pre.len() && j != k ==> cur[j] == pre[j]);
                // ids are untouched position by position, so uniqueness survives
                assert(forall|j: int| 0 <= j < pre.len() ==> cur[j].id@ == pre[j].id@);
                assert forall|a: int, b: int| 0 <= a < b < cur.len() implies cur[a].id@
                    != cur[b].id@ by {
                    assert(old(st).workspaces_wf());
                    assert(0 <= a < b < old(st).workspaces@.len());
                    assert(old(st).workspaces@[a].id@ != old(st).workspaces@[b].id@);
                    assert(cur[a].id@ == pre[a].id@);
                    assert(cur[b].id@ == pre[b].id@);
                };
                // a position other than k still holds its prior record, whose id
                // differs from the replaced id by uniqueness
                assert forall|j: int|
                    0 <= j < cur.len() && cur[j] != w implies pre.contains(cur[j]) && cur[j].id@
                        != wid by {
                    assert(j != k);
                    assert(cur[j] == pre[j]);
                    if j < k {
                        assert(pre[j].id@ != pre[k as int].id@);
                    } else {
                        assert(pre[k as int].id@ != pre[j].id@);
                    }
                };
                assert forall|j: int|
                    0 <= j < pre.len() && pre[j].id@ != wid implies st.workspaces@.contains(
                    pre[j]) by {
                    assert(j != k);
                    assert(cur[j] == pre[j]);
                };
            }
            return ;
        }
        k += 1;
    }
    let ghost prior = st.workspaces@;
    st.workspaces.push(w);
    proof {
        assert(st.workspaces@[prior.len() as int] == w);
        assert(forall|j: int| 0 <= j < prior.len() ==> st.workspaces@[j] == prior[j]);
        assert(forall|j: int|
            0 <= j < prior.len() ==> st.workspaces@.contains(prior[j]));
    }
}

/// True exactly when the two strings hold the same characters.
pub fn str_eq(a: &str, b: &str) -> (r: bool)
    ensures
        r == (a@ == b@),
{
    let sa = a.to_owned();
    let sb = b.to_owned();
    sa == sb
}

} // verus!
