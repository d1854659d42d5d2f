//! Window configurations, the registry of windows an application can open,
//! and what opening a window by name does.
use vstd::prelude::*;
use vstd::string::StrSliceExecFns;

verus! {

/// The configuration of a window that the application can open.
pub struct Window<V> {
    /// The name the window is opened by.
    pub name: &'static str,
    /// What the window shows.
    pub view: V,
    pub inner_size: Option<(u32, u32)>,
    pub resizable: Option<bool>,
    pub title: Option<String>,
    pub transparent: Option<bool>,
    pub decorations: Option<bool>,
    pub open_at_start: bool,
}

/// The attributes a window is created with; `None` leaves the windowing
/// system's default.
#[derive(Debug, PartialEq, Eq)]
pub struct WindowAttributes {
    pub inner_size: Option<(u32, u32)>,
    pub resizable: Option<bool>,
    pub transparent: Option<bool>,
    pub decorations: Option<bool>,
    pub title: Option<String>,
}

/// The platform a window is created on: size, resizability, transparency
/// and decorations are set on macOS and Windows only.
#[derive(Debug, Clone, Copy, PartialEq, Eq, Structural)]
pub enum WindowPlatform {
    MacOs,
    Windows,
    Other,
}

/// The attributes `w` is created with on `platform`: on macOS and Windows
/// its own where set, else 1044 by 800, resizable, opaque, decorated; on
/// other platforms the windowing system's defaults. The title is set
/// everywhere.
pub open spec fn spec_attributes<V>(w: &Window<V>, platform: WindowPlatform) -> WindowAttributes {
    if platform == WindowPlatform::Other {
        WindowAttributes { inner_size: None, resizable: None, transparent: None, decorations: None, title: w.title }
    } else {
        WindowAttributes {
            inner_size: Some(option_or(w.inner_size, DEFAULT_INNER_SIZE)),
            resizable: Some(option_or(w.resizable, true)),
            transparent: Some(option_or(w.transparent, false)),
            decorations: Some(option_or(w.decorations, true)),
            title: w.title,
        }
    }
}

/// The size of a window created without one.
pub const DEFAULT_INNER_SIZE: (u32, u32) = (1044u32, 800u32);

pub open spec fn option_or<T>(o: Option<T>, d: T) -> T {
    match o {
        Some(v) => v,
        None => d,
    }
}

impl<V> Window<V> {
    /// A window named `name` showing `view`, with every attribute left to
    /// its default, opened at start.
    pub fn new(name: &'static str, view: V) -> (w: Self)
        ensures
            w.name == name,
            w.view == view,
            w.inner_size is None,
            w.resizable is None,
            w.title is None,
            w.transparent is None,
            w.decorations is None,
            w.open_at_start,
    {
        Window {
            name,
            view,
            inner_size: None,
            resizable: None,
            title: None,
            transparent: None,
            decorations: None,
            open_at_start: true,
        }
    }

    pub fn inner_size(self, width: u32, height: u32) -> (w: Self)
        ensures
            w == (Window { inner_size: Some((width, height)), ..self }),
    {
        Window { inner_size: Some((width, height)), ..self }
    }

    pub fn resizable(self, resizable: bool) -> (w: Self)
        ensures
            w == (Window { resizable: Some(resizable), ..self }),
    {
        Window { resizable: Some(resizable), ..self }
    }

    pub fn title(self, title: &str) -> (w: Self)
        ensures
            w.title matches Some(t) && t@ == title@,
            w == (Window { title: w.title, ..self }),
    {
        Window { title: Some(title.to_owned()), ..self }
    }

    pub fn transparent(self, transparent: bool) -> (w: Self)
        ensures
            w == (Window { transparent: Some(transparent), ..self }),
    {
        Window { transparent: Some(transparent), ..self }
    }

    pub fn decorations(self, decorations: bool) -> (w: Self)
        ensures
            w == (Window { decorations: Some(decorations), ..self }),
    {
        Window { decorations: Some(decorations), ..self }
    }

    pub fn open_at_start(self, open: bool) -> (w: Self)
        ensures
            w == (Window { open_at_start: open, ..self }),
    {
        Window { open_at_start: open, ..self }
    }

    /// The attributes the window is created with on `platform` (see
    /// `spec_attributes`).
    pub fn attributes(&self, platform: WindowPlatform) -> (a: WindowAttributes)
        ensures
            a == spec_attributes(self, platform),
    {
        let title = match &self.title {
            Some(t) => Some(t.clone()),
            None => None,
        };
        match platform {
            WindowPlatform::Other => WindowAttributes {
                inner_size: None,
                resizable: None,
                transparent: None,
                decorations: None,
                title,
            },
            _ => WindowAttributes {
                inner_size: Some(match self.inner_size {
                    Some(s) => s,
                    None => DEFAULT_INNER_SIZE,
                }),
                resizable: Some(match self.resizable {
                    Some(r) => r,
                    None => true,
                }),
                transparent: Some(match self.transparent {
                    Some(t) => t,
                    None => false,
                }),
                decorations: Some(match self.decorations {
                    Some(d) => d,
                    None => true,
                }),
                title,
            },
        }
    }
}

/// Whether two strings hold the same characters.
pub fn str_eq(a: &str, b: &str) -> (same: bool)
    ensures
        same == (a@ == b@),
{
    let n = a.unicode_len();
    if n != b.unicode_len() {
        return false;
    }
    let mut i: usize = 0;
    while i < n
        invariant
            i <= n,
            n == a@.len(),
            n == b@.len(),
            forall|k: int| 0 <= k < i ==> a@[k] == b@[k],
        decreases n - i,
    {
        if a.get_char(i) != b.get_char(i) {
            return false;
        }
        i = i + 1;
    }
    assert(a@ =~= b@);
    true
}

/// The index of the first name in `names` equal to `name`.
pub open spec fn name_index(names: Seq<Seq<char>>, name: Seq<char>) -> Option<int>
    decreases names.len(),
{
    if names.len() == 0 {
        None
    } else {
        match name_index(names.drop_last(), name) {
            Some(i) => Some(i),
            None => if names.last() == name { Some(names.len() - 1) } else { None },
        }
    }
}

/// The characters of each name in `names`.
pub open spec fn name_views(names: Seq<&'static str>) -> Seq<Seq<char>> {
    names.map_values(|n: &'static str| n@)
}

/// The position in `names` of the first name equal to `name`.
pub fn find_name(names: &Vec<&'static str>, name: &str) -> (i: Option<usize>)
    ensures
        match i {
            Some(k) => name_index(name_views(names@), name@) == Some(k as int),
            None => name_index(name_views(names@), name@) is None,
        },
{
    let mut k: usize = 0;
    while k < names.len()
        invariant
            k <= names@.len(),
            name_index(name_views(names@.take(k as int)), name@) is None,
        decreases names@.len() - k,
    {
        let ghost views_k1 = name_views(names@.take(k + 1));
        assert(views_k1.drop_last() =~= name_views(names@.take(k as int)));
        if str_eq(names[k], name) {
            proof {
                assert(views_k1.last() == name@);
                lemma_name_index_prefix(name_views(names@), name@, k + 1);
                assert(name_views(names@).take(k + 1) =~= views_k1);
            }
            return Some(k);
        }
        k = k + 1;
    }
    assert(names@.take(names@.len() as int) =~= names@);
    None
}

/// Where no name matches, no element equals the name.
pub proof fn lemma_name_index_none(s: Seq<Seq<char>>, name: Seq<char>, i: int)
    requires
        name_index(s, name) is None,
        0 <= i < s.len(),
    ensures
        s[i] != name,
    decreases s.len(),
{
    if i < s.len() - 1 {
        lemma_name_index_none(s.drop_last(), name, i);
    }
}

/// The first match in a prefix is the first match in the whole sequence.
pub proof fn lemma_name_index_prefix(s: Seq<Seq<char>>, name: Seq<char>, n: int)
    requires
        0 <= n <= s.len(),
        name_index(s.take(n), name) is Some,
    ensures
        name_index(s, name) == name_index(s.take(n), name),
    decreases s.len() - n,
{
    if n < s.len() {
        assert(s.take(n + 1).drop_last() =~= s.take(n));
        assert(name_index(s.take(n + 1), name) == name_index(s.take(n), name));
        lemma_name_index_prefix(s, name, n + 1);
    } else {
        assert(s.take(n) =~= s);
    }
}

/// No two windows in `windows` share a name.
pub open spec fn registry_names_unique<V>(windows: Seq<Window<V>>) -> bool {
    forall|i: int, j: int| 0 <= i < j < windows.len() ==> windows[i].name@ != windows[j].name@
}

/// The windows an application can open, by name, and the names of those to
/// open at start, in order. No two registered windows share a name.
pub struct WindowRegistry<V> {
    windows: Vec<Window<V>>,
    initial: Vec<&'static str>,
}

impl<V> WindowRegistry<V> {
    pub closed spec fn names(self) -> Seq<&'static str> {
        self.windows@.map_values(|w: Window<V>| w.name)
    }

    pub closed spec fn windows(self) -> Seq<Window<V>> {
        self.windows@
    }

    pub closed spec fn initial(self) -> Seq<&'static str> {
        self.initial@
    }

    #[verifier::type_invariant]
    spec fn inv(self) -> bool {
        registry_names_unique(self.windows@)
    }

    fn find(&self, name: &str) -> (i: Option<usize>)
        ensures
            match i {
                Some(k) => k < self.windows@.len() && self.windows@[k as int].name@ == name@,
                None => forall|k: int| 0 <= k < self.windows@.len() ==> self.windows@[k].name@ != name@,
            },
    {
        let mut k: usize = 0;
        while k < self.windows.len()
            invariant
                k <= self.windows@.len(),
                forall|j: int| 0 <= j < k ==> self.windows@[j].name@ != name@,
            decreases self.windows@.len() - k,
        {
            if str_eq(self.windows[k].name, name) {
                return Some(k);
            }
            k = k + 1;
        }
        None
    }

    /// A registry holding `window`, which opens at start if it says so.
    pub fn new(window: Window<V>) -> (r: Self)
        ensures
            registry_names_unique(r.windows()),
            r.windows() == seq![window],
            r.initial() == (if window.open_at_start { seq![window.name] } else { Seq::<&'static str>::empty() }),
    {
        let mut initial: Vec<&'static str> = Vec::new();
        if window.open_at_start {
            initial.push(window.name);
        }
        let mut windows: Vec<Window<V>> = Vec::new();
        windows.push(window);
        WindowRegistry { windows, initial }
    }

    /// Registers `window`, replacing a registered window of the same name;
    /// if it opens at start, its name is added to those opened at start.
    pub fn add(&mut self, window: Window<V>)
        ensures
            registry_names_unique(final(self).windows()),
            final(self).initial() == (if window.open_at_start { old(self).initial().push(window.name) } else { old(self).initial() }),
            (exists|k: int| 0 <= k < old(self).windows().len() && old(self).windows()[k].name@ == window.name@) ==>
                exists|k: int| 0 <= k < old(self).windows().len() && old(self).windows()[k].name@ == window.name@
                    && final(self).windows() == old(self).windows().update(k, window),
            (forall|k: int| 0 <= k < old(self).windows().len() ==> old(self).windows()[k].name@ != window.name@) ==>
                final(self).windows() == old(self).windows().push(window),
            exists|k: int| 0 <= k < final(self).windows().len() && final(self).windows()[k] == window,
            forall|k: int| 0 <= k < final(self).windows().len() && #[trigger] final(self).windows()[k].name@ == window.name@
                ==> final(self).windows()[k] == window,
            forall|k: int| 0 <= k < old(self).windows().len() && #[trigger] old(self).windows()[k].name@ != window.name@
                ==> final(self).windows().contains(old(self).windows()[k]),
    {
        proof { use_type_invariant(&*self); }
        let ghost before = self.windows@;
        let found = self.find(window.name);
        let mut windows: Vec<Window<V>> = Vec::new();
        std::mem::swap(&mut windows, &mut self.windows);
        let mut initial: Vec<&'static str> = Vec::new();
        std::mem::swap(&mut initial, &mut self.initial);
        if window.open_at_start {
            initial.push(window.name);
        }
        match found {
            Some(k) => {
                windows.set(k, window);
                assert(windows@[k as int] == window);
                assert forall|j: int| 0 <= j < before.len() && before[j].name@ != window.name@
                    implies windows@.contains(before[j]) by {
                    assert(windows@[j] == before[j]);
                }
            },
            None => {
                windows.push(window);
                assert(windows@[before.len() as int] == window);
                assert forall|j: int| 0 <= j < before.len() && before[j].name@ != window.name@
                    implies windows@.contains(before[j]) by {
                    assert(windows@[j] == before[j]);
                }
            },
        }
        self.windows = windows;
        self.initial = initial;
    }

    /// The registered window named `name`.
    pub fn get(&self, name: &str) -> (w: Option<&Window<V>>)
        ensures
            registry_names_unique(self.windows()),
            match w {
                Some(win) => exists|k: int| 0 <= k < self.windows().len() && self.windows()[k] == *win && win.name@ == name@,
                None => forall|k: int| 0 <= k < self.windows().len() ==> self.windows()[k].name@ != name@,
            },
    {
        proof { use_type_invariant(self); }
        match self.find(name) {
            Some(k) => Some(&self.windows[k]),
            None => None,
        }
    }

    /// The names of the windows to open at start, in order.
    pub fn initial_windows(&self) -> (names: &Vec<&'static str>)
        ensures
            names@ == self.initial(),
    {
        &self.initial
    }
}

/// Every window is created with its own title, on every platform; on
/// macOS and Windows with its own size, resizability, transparency and
/// decorations where it sets them and 1044 by 800, resizable, opaque and
/// decorated where it does not; elsewhere none of these four is set.
pub proof fn lemma_attributes_keep_configuration<V>(w: Window<V>, platform: WindowPlatform)
    ensures
        spec_attributes(&w, platform).title == w.title,
        platform != WindowPlatform::Other ==> {
            let a = spec_attributes(&w, platform);
            &&& a.inner_size == Some(match w.inner_size { Some(s) => s, None => (1044u32, 800u32) })
            &&& a.resizable == Some(match w.resizable { Some(r) => r, None => true })
            &&& a.transparent == Some(match w.transparent { Some(t) => t, None => false })
            &&& a.decorations == Some(match w.decorations { Some(d) => d, None => true })
        },
        platform == WindowPlatform::Other ==> {
            let a = spec_attributes(&w, platform);
            &&& a.inner_size is None
            &&& a.resizable is None
            &&& a.transparent is None
            &&& a.decorations is None
        },
{
}

/// What opening a window by name does.
#[derive(Debug, PartialEq, Eq)]
pub enum OpenPlan {
    /// A window of that name is open: focus the open window at this index.
    Focus(usize),
    /// Create the window with these attributes.
    Create(WindowAttributes),
    /// No window of that name is registered.
    Unknown,
}

/// Plans opening the window `name`, given the names of the open windows:
/// an open window of that name is focused; otherwise the registered window
/// of that name is created with its attributes on `platform`; otherwise
/// nothing is done.
pub fn plan_open<V>(open: &Vec<&'static str>, registry: &WindowRegistry<V>, name: &str, platform: WindowPlatform) -> (plan: OpenPlan)
    ensures
        match name_index(name_views(open@), name@) {
            Some(i) => plan == OpenPlan::Focus(i as usize),
            None => match plan {
                OpenPlan::Create(a) => exists|k: int|
                    0 <= k < registry.windows().len() && registry.windows()[k].name@ == name@
                        && a == spec_attributes(&registry.windows()[k], platform),
                OpenPlan::Unknown => forall|k: int| 0 <= k < registry.windows().len() ==> registry.windows()[k].name@ != name@,
                OpenPlan::Focus(_) => false,
            },
        },
{
    match find_name(open, name) {
        Some(i) => OpenPlan::Focus(i),
        None => match registry.get(name) {
            Some(w) => OpenPlan::Create(w.attributes(platform)),
            None => OpenPlan::Unknown,
        },
    }
}

/// Names with no repeats: at most one window of each name.
pub open spec fn names_unique(names: Seq<Seq<char>>) -> bool {
    forall|i: int, j: int| 0 <= i < j < names.len() ==> names[i] != names[j]
}

/// Opening windows only as `plan_open` says (creating one only when none
/// of that name is open) keeps at most one open window per name.
pub proof fn lemma_open_keeps_names_unique(open: Seq<Seq<char>>, name: Seq<char>)
    requires
        names_unique(open),
        name_index(open, name) is None,
    ensures
        names_unique(open.push(name)),
{
    assert forall|i: int, j: int| 0 <= i < j < open.push(name).len() implies open.push(name)[i] != open.push(name)[j] by {
        if j == open.len() {
            lemma_name_index_none(open, name, i);
        }
    }
}

/// Closing a window keeps the open names free of repeats.
pub proof fn lemma_close_keeps_names_unique(open: Seq<Seq<char>>, k: int)
    requires
        names_unique(open),
        0 <= k < open.len(),
    ensures
        names_unique(open.remove(k)),
{
}

/// The names of the open windows, in the order they were opened. At most
/// one window of each name is open, always.
pub struct OpenWindows {
    names: Vec<&'static str>,
}

impl OpenWindows {
    #[verifier::type_invariant]
    spec fn inv(self) -> bool {
        names_unique(name_views(self.names@))
    }

    /// The names of the open windows, in order.
    pub closed spec fn spec_names(self) -> Seq<Seq<char>> {
        name_views(self.names@)
    }

    /// No window is open.
    pub fn new() -> (w: Self)
        ensures
            w.spec_names() == Seq::<Seq<char>>::empty(),
    {
        let w = OpenWindows { names: Vec::new() };
        assert(w.spec_names() =~= Seq::<Seq<char>>::empty());
        w
    }

    /// The names of the open windows; no name occurs twice.
    pub fn open_names(&self) -> (names: &Vec<&'static str>)
        ensures
            name_views(names@) == self.spec_names(),
            names_unique(self.spec_names()),
    {
        proof { use_type_invariant(self); }
        &self.names
    }

    /// How many windows are open.
    pub fn len(&self) -> (n: usize)
        ensures
            n == self.spec_names().len(),
    {
        self.names.len()
    }

    /// What opening the window `name` does (see `plan_open`): focus the open
    /// window of that name, else create the registered one, else nothing.
    pub fn plan<V>(&self, registry: &WindowRegistry<V>, name: &str, platform: WindowPlatform) -> (plan: OpenPlan)
        ensures
            match name_index(self.spec_names(), name@) {
                Some(i) => plan == OpenPlan::Focus(i as usize),
                None => match plan {
                    OpenPlan::Create(a) => exists|k: int|
                        0 <= k < registry.windows().len() && registry.windows()[k].name@ == name@
                            && a == spec_attributes(&registry.windows()[k], platform),
                    OpenPlan::Unknown => forall|k: int| 0 <= k < registry.windows().len() ==> registry.windows()[k].name@ != name@,
                    OpenPlan::Focus(_) => false,
                },
            },
    {
        plan_open(&self.names, registry, name, platform)
    }

    /// Records that the window `name` was created: only when no window of
    /// that name is open, in which case it is added last. The result says
    /// whether it was added. Either way no name is open twice.
    pub fn add(&mut self, name: &'static str) -> (added: bool)
        ensures
            added == (name_index(old(self).spec_names(), name@) is None),
            added ==> final(self).spec_names() == old(self).spec_names().push(name@),
            !added ==> final(self).spec_names() == old(self).spec_names(),
            names_unique(final(self).spec_names()),
    {
        proof { use_type_invariant(&*self); }
        match find_name(&self.names, name) {
            Some(_) => false,
            None => {
                let mut names: Vec<&'static str> = Vec::new();
                std::mem::swap(&mut names, &mut self.names);
                let ghost before = names@;
                names.push(name);
                proof {
                    assert(name_views(names@) =~= name_views(before).push(name@));
                    lemma_open_keeps_names_unique(name_views(before), name@);
                }
                self.names = names;
                true
            },
        }
    }

    /// Records that the open window at `index` was closed.
    pub fn remove(&mut self, index: usize)
        requires
            index < old(self).spec_names().len(),
        ensures
            final(self).spec_names() == old(self).spec_names().remove(index as int),
            names_unique(final(self).spec_names()),
    {
        proof { use_type_invariant(&*self); }
        let mut names: Vec<&'static str> = Vec::new();
        std::mem::swap(&mut names, &mut self.names);
        let ghost before = names@;
        names.remove(index);
        proof {
            assert(name_views(names@) =~= name_views(before).remove(index as int));
            lemma_close_keeps_names_unique(name_views(before), index as int);
        }
        self.names = names;
    }
}

/// Whether the application exits after a window closed: when no window is
/// left open.
pub fn exits_after_close(remaining_open: usize) -> (exit: bool)
    ensures
        exit == (remaining_open == 0),
{
    remaining_open == 0
}

} // verus!
