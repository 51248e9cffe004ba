//! Command-line flags: what a provider declares, and what a run was given.

use vstd::prelude::*;

use crate::text::{clone_opt, opt_str_view, opt_view, str_eq};

verus! {

/// The views of a run of borrowed strings.
pub open spec fn strs_view(strs: Seq<&str>) -> Seq<Seq<char>> {
    Seq::new(strs.len(), |i: int| strs[i]@)
}

/// What the declaration of a flag holds, as plain values.
pub struct FlagDeclView {
    /// The name: the flag is written `--name`.
    pub name: Seq<char>,
    /// The help text.
    pub help: Option<Seq<char>>,
    /// Whether the flag takes a value.
    pub takes_value: bool,
    /// The name of the value in the help text.
    pub value_name: Option<Seq<char>>,
    /// The flags that have to be given along with this one.
    pub needs: Seq<Seq<char>>,
    /// The flag that may not be given along with this one.
    pub conflicts_with: Option<Seq<char>>,
}

impl FlagDeclView {
    /// A flag of a name that takes no value and has nothing else set.
    pub open spec fn with_name(name: Seq<char>) -> FlagDeclView {
        FlagDeclView {
            name,
            help: None,
            takes_value: false,
            value_name: None,
            needs: Seq::empty(),
            conflicts_with: None,
        }
    }

    /// A flag that takes a value.
    pub open spec fn option(
        name: Seq<char>,
        help: Seq<char>,
        value_name: Seq<char>,
    ) -> FlagDeclView {
        FlagDeclView {
            help: Some(help),
            takes_value: true,
            value_name: Some(value_name),
            ..FlagDeclView::with_name(name)
        }
    }

    /// A flag that takes no value.
    pub open spec fn switch(name: Seq<char>, help: Seq<char>) -> FlagDeclView {
        FlagDeclView { help: Some(help), ..FlagDeclView::with_name(name) }
    }

    /// The same flag with one more flag that has to be given along with it.
    pub open spec fn needing(self, name: Seq<char>) -> FlagDeclView {
        FlagDeclView { needs: self.needs.push(name), ..self }
    }
}

/// The declaration of one command-line flag.
pub struct FlagDecl<'a> {
    name: &'a str,
    help: Option<&'a str>,
    takes_value: bool,
    value_name: Option<&'a str>,
    needs: Vec<&'a str>,
    conflicts_with: Option<&'a str>,
}

impl<'a> View for FlagDecl<'a> {
    type V = FlagDeclView;

    closed spec fn view(&self) -> FlagDeclView {
        FlagDeclView {
            name: self.name@,
            help: opt_str_view(self.help),
            takes_value: self.takes_value,
            value_name: opt_str_view(self.value_name),
            needs: strs_view(self.needs@),
            conflicts_with: opt_str_view(self.conflicts_with),
        }
    }
}

impl<'a> FlagDecl<'a> {
    /// A flag of a name that takes no value and has nothing else set.
    pub fn with_name(name: &'a str) -> (decl: Self)
        ensures
            decl@ == FlagDeclView::with_name(name@),
    {
        let decl = FlagDecl {
            name,
            help: None,
            takes_value: false,
            value_name: None,
            needs: Vec::new(),
            conflicts_with: None,
        };
        assert(decl@.needs =~= Seq::empty());
        decl
    }

    /// Sets the help text.
    pub fn help(self, help: &'a str) -> (decl: Self)
        ensures
            decl@ == (FlagDeclView { help: Some(help@), ..self@ }),
    {
        let mut decl = self;
        decl.help = Some(help);
        decl
    }

    /// Sets whether the flag takes a value.
    pub fn takes_value(self, takes_value: bool) -> (decl: Self)
        ensures
            decl@ == (FlagDeclView { takes_value, ..self@ }),
    {
        let mut decl = self;
        decl.takes_value = takes_value;
        decl
    }

    /// Sets the name of the value in the help text.
    pub fn value_name(self, value_name: &'a str) -> (decl: Self)
        ensures
            decl@ == (FlagDeclView { value_name: Some(value_name@), ..self@ }),
    {
        let mut decl = self;
        decl.value_name = Some(value_name);
        decl
    }

    /// Adds a flag that has to be given along with this one.
    pub fn needs(self, name: &'a str) -> (decl: Self)
        ensures
            decl@ == self@.needing(name@),
    {
        let mut decl = self;
        decl.needs.push(name);
        assert(decl@.needs =~= self@.needs.push(name@));
        decl
    }

    /// Sets the flag that may not be given along with this one.
    pub fn conflicts_with(self, name: &'a str) -> (decl: Self)
        ensures
            decl@ == (FlagDeclView { conflicts_with: Some(name@), ..self@ }),
    {
        let mut decl = self;
        decl.conflicts_with = Some(name);
        decl
    }

    /// The name.
    pub fn get_name(&self) -> (name: &'a str)
        ensures
            name@ == self@.name,
    {
        self.name
    }

    /// The help text.
    pub fn get_help(&self) -> (help: Option<&'a str>)
        ensures
            opt_str_view(help) == self@.help,
    {
        self.help
    }

    /// Whether the flag takes a value.
    pub fn get_takes_value(&self) -> (takes_value: bool)
        ensures
            takes_value == self@.takes_value,
    {
        self.takes_value
    }

    /// The name of the value in the help text.
    pub fn get_value_name(&self) -> (value_name: Option<&'a str>)
        ensures
            opt_str_view(value_name) == self@.value_name,
    {
        self.value_name
    }

    /// The flags that have to be given along with this one.
    pub fn get_needs(&self) -> (names: &[&'a str])
        ensures
            strs_view(names@) == self@.needs,
    {
        self.needs.as_slice()
    }

    /// The flag that may not be given along with this one.
    pub fn get_conflicts_with(&self) -> (name: Option<&'a str>)
        ensures
            opt_str_view(name) == self@.conflicts_with,
    {
        self.conflicts_with
    }
}

/// What a group of flags holds, as plain values.
pub struct FlagGroupView {
    /// The name of the group.
    pub name: Seq<char>,
    /// The flags of the group.
    pub args: Seq<Seq<char>>,
    /// Whether more than one flag of the group may be given.
    pub multiple: bool,
    /// The flags that have to be given along with any flag of the group.
    pub needs: Seq<Seq<char>>,
}

/// A group of flags with a rule for all of them.
pub struct FlagGroup<'a> {
    name: &'a str,
    args: Vec<&'a str>,
    multiple: bool,
    needs: Vec<&'a str>,
}

impl<'a> View for FlagGroup<'a> {
    type V = FlagGroupView;

    closed spec fn view(&self) -> FlagGroupView {
        FlagGroupView {
            name: self.name@,
            args: strs_view(self.args@),
            multiple: self.multiple,
            needs: strs_view(self.needs@),
        }
    }
}

impl<'a> FlagGroup<'a> {
    /// A group of a name, of which any number of flags may be given.
    pub fn with_name(name: &'a str) -> (group: Self)
        ensures
            group@ == (FlagGroupView {
                name: name@,
                args: Seq::empty(),
                multiple: true,
                needs: Seq::empty(),
            }),
    {
        let group = FlagGroup { name, args: Vec::new(), multiple: true, needs: Vec::new() };
        assert(group@.args =~= Seq::empty());
        assert(group@.needs =~= Seq::empty());
        group
    }

    /// Adds a flag to the group.
    pub fn arg(self, name: &'a str) -> (group: Self)
        ensures
            group@ == (FlagGroupView { args: self@.args.push(name@), ..self@ }),
    {
        let mut group = self;
        group.args.push(name);
        assert(group@.args =~= self@.args.push(name@));
        group
    }

    /// Sets whether more than one flag of the group may be given.
    pub fn multiple(self, multiple: bool) -> (group: Self)
        ensures
            group@ == (FlagGroupView { multiple, ..self@ }),
    {
        let mut group = self;
        group.multiple = multiple;
        group
    }

    /// Adds a flag that has to be given along with any flag of the group.
    pub fn needs(self, name: &'a str) -> (group: Self)
        ensures
            group@ == (FlagGroupView { needs: self@.needs.push(name@), ..self@ }),
    {
        let mut group = self;
        group.needs.push(name);
        assert(group@.needs =~= self@.needs.push(name@));
        group
    }

    /// The name of the group.
    pub fn get_name(&self) -> (name: &'a str)
        ensures
            name@ == self@.name,
    {
        self.name
    }

    /// The flags of the group.
    pub fn get_args(&self) -> (names: &[&'a str])
        ensures
            strs_view(names@) == self@.args,
    {
        self.args.as_slice()
    }

    /// Whether more than one flag of the group may be given.
    pub fn get_multiple(&self) -> (multiple: bool)
        ensures
            multiple == self@.multiple,
    {
        self.multiple
    }

    /// The flags that have to be given along with any flag of the group.
    pub fn get_needs(&self) -> (names: &[&'a str])
        ensures
            strs_view(names@) == self@.needs,
    {
        self.needs.as_slice()
    }
}

/// Whether a flag of a name is among the declared ones.
pub open spec fn declared(flags: Seq<FlagDeclView>, name: Seq<char>) -> bool {
    exists|i: int| 0 <= i < flags.len() && (#[trigger] flags[i]).name == name
}

/// The declared flags after one more declaration: a new name goes to the
/// end, a name that is declared already changes nothing.
pub open spec fn declare(flags: Seq<FlagDeclView>, decl: FlagDeclView) -> Seq<FlagDeclView> {
    if declared(flags, decl.name) {
        flags
    } else {
        flags.push(decl)
    }
}

/// No name is declared twice.
pub open spec fn distinct_names(flags: Seq<FlagDeclView>) -> bool {
    forall|i: int, j: int|
        0 <= i < j < flags.len() ==> (#[trigger] flags[i]).name != (#[trigger] flags[j]).name
}

/// The views of a run of declarations.
pub open spec fn flags_view(flags: Seq<FlagDecl>) -> Seq<FlagDeclView> {
    Seq::new(flags.len(), |i: int| flags[i]@)
}

/// Declaring keeps the names distinct and what was declared before, and the
/// new name is declared afterwards.
pub proof fn lemma_declare(flags: Seq<FlagDeclView>, decl: FlagDeclView)
    requires
        distinct_names(flags),
    ensures
        distinct_names(declare(flags, decl)),
        declared(declare(flags, decl), decl.name),
        forall|name: Seq<char>| declared(flags, name) ==> declared(declare(flags, decl), name),
        declare(declare(flags, decl), decl) == declare(flags, decl),
{
    let after = declare(flags, decl);
    if !declared(flags, decl.name) {
        assert(after[flags.len() as int].name == decl.name);
        assert forall|i: int, j: int| 0 <= i < j < after.len() implies (#[trigger] after[i]).name
            != (#[trigger] after[j]).name by {
            assert(after[i] == flags[i]);
            if j < flags.len() {
                assert(after[j] == flags[j]);
            }
        }
        assert forall|name: Seq<char>| declared(flags, name) implies declared(after, name) by {
            let i = choose|i: int| 0 <= i < flags.len() && (#[trigger] flags[i]).name == name;
            assert(after[i].name == name);
        }
    }
}

/// The place of the flag of a name among the declared ones, if there is one.
pub fn find_flag(flags: &Vec<FlagDecl>, name: &str) -> (idx: Option<usize>)
    ensures
        idx is Some <==> declared(flags_view(flags@), name@),
        idx matches Some(i) ==> i < flags@.len() && flags@[i as int]@.name == name@,
{
    let n = flags.len();
    let mut i: usize = 0;
    while i < n
        invariant
            i <= n,
            n == flags@.len(),
            forall|j: int| 0 <= j < i ==> (#[trigger] flags_view(flags@)[j]).name != name@,
        decreases n - i,
    {
        if str_eq(flags[i].get_name(), name) {
            assert(flags_view(flags@)[i as int].name == name@);
            return Some(i);
        }
        i += 1;
    }
    None
}

/// Declares a flag unless one of its name is declared already.
pub fn declare_flag<'a>(flags: &mut Vec<FlagDecl<'a>>, decl: FlagDecl<'a>)
    ensures
        flags_view(final(flags)@) == declare(flags_view(old(flags)@), decl@),
{
    if find_flag(flags, decl.get_name()).is_some() {
        return ;
    }
    flags.push(decl);
    assert(flags_view(flags@) =~= flags_view(old(flags)@).push(decl@));
}

/// One flag that a run was given, as plain values.
pub struct GivenView {
    /// The name of the flag.
    pub name: Seq<char>,
    /// The value that came with it, if it takes one.
    pub value: Option<Seq<char>>,
}

/// The flags of a run as a map from each name that was given to the value
/// that came with it: a later entry of a name replaces an earlier one.
pub open spec fn given_map(entries: Seq<GivenView>) -> Map<Seq<char>, Option<Seq<char>>>
    decreases entries.len(),
{
    if entries.len() == 0 {
        Map::empty()
    } else {
        given_map(entries.drop_last()).insert(entries.last().name, entries.last().value)
    }
}

struct Given {
    name: String,
    value: Option<String>,
}

impl View for Given {
    type V = GivenView;

    closed spec fn view(&self) -> GivenView {
        GivenView { name: self.name@, value: opt_view(self.value) }
    }
}

/// The flags that a run was given: for each name that occurred, the value
/// that came with it, if the flag takes one.
pub struct Matches {
    entries: Vec<Given>,
}

impl View for Matches {
    type V = Map<Seq<char>, Option<Seq<char>>>;

    closed spec fn view(&self) -> Map<Seq<char>, Option<Seq<char>>> {
        given_map(Seq::new(self.entries@.len(), |i: int| self.entries@[i]@))
    }
}

/// Whether a flag was given.
pub open spec fn present(matches: Map<Seq<char>, Option<Seq<char>>>, name: Seq<char>) -> bool {
    matches.contains_key(name)
}

/// The value that came with a flag, if the flag was given with one.
pub open spec fn value_of(matches: Map<Seq<char>, Option<Seq<char>>>, name: Seq<char>) -> Option<
    Seq<char>,
> {
    if matches.contains_key(name) {
        matches[name]
    } else {
        None
    }
}

impl Clone for Matches {
    fn clone(&self) -> (matches: Self)
        ensures
            matches@ == self@,
    {
        let mut entries: Vec<Given> = Vec::new();
        let n = self.entries.len();
        let mut i: usize = 0;
        while i < n
            invariant
                i <= n,
                n == self.entries@.len(),
                entries@.len() == i,
                forall|j: int| 0 <= j < i ==> (#[trigger] entries@[j])@ == self.entries@[j]@,
            decreases n - i,
        {
            let given = &self.entries[i];
            entries.push(
                Given { name: given.name.clone(), value: clone_opt(&given.value) },
            );
            i += 1;
        }
        let matches = Matches { entries };
        assert(matches.entries_view() =~= self.entries_view());
        matches
    }
}

impl Matches {
    spec fn entries_view(&self) -> Seq<GivenView> {
        Seq::new(self.entries@.len(), |i: int| self.entries@[i]@)
    }

    /// A run that was given no flag.
    pub fn new() -> (matches: Self)
        ensures
            matches@ == Map::<Seq<char>, Option<Seq<char>>>::empty(),
    {
        let matches = Matches { entries: Vec::new() };
        assert(matches.entries_view() =~= Seq::empty());
        matches
    }

    /// Records that a flag was given, with the value that came with it if it
    /// takes one.
    pub fn insert(&mut self, name: &str, value: Option<&str>)
        ensures
            final(self)@ == old(self)@.insert(name@, opt_str_view(value)),
    {
        let value = match value {
            Some(v) => Some(v.to_owned()),
            None => None,
        };
        self.entries.push(Given { name: name.to_owned(), value });
        proof {
            let after = self.entries_view();
            assert(after.drop_last() =~= old(self).entries_view());
        }
    }

    /// Whether a flag was given.
    pub fn is_present(&self, name: &str) -> (given: bool)
        ensures
            given == present(self@, name@),
    {
        self.find(name).is_some()
    }

    /// The value that came with a flag, if the flag was given with one.
    pub fn value_of(&self, name: &str) -> (value: Option<&str>)
        ensures
            opt_str_view(value) == value_of(self@, name@),
    {
        match self.find(name) {
            Some(i) => match &self.entries[i].value {
                Some(v) => Some(v.as_str()),
                None => None,
            },
            None => None,
        }
    }

    /// The place of the last entry of a name.
    fn find(&self, name: &str) -> (idx: Option<usize>)
        ensures
            idx is Some <==> self@.contains_key(name@),
            idx matches Some(i) ==> i < self.entries@.len() && self@[name@]
                == self.entries@[i as int]@.value,
    {
        let ghost all = self.entries_view();
        let mut i: usize = self.entries.len();
        assert(all.take(i as int) =~= all);
        while i > 0
            invariant
                i <= self.entries@.len(),
                all == self.entries_view(),
                given_map(all).contains_key(name@) == given_map(all.take(i as int)).contains_key(
                    name@,
                ),
                given_map(all)[name@] == given_map(all.take(i as int))[name@],
            decreases i,
        {
            i -= 1;
            proof {
                let rest = all.take(i + 1);
                assert(rest.drop_last() =~= all.take(i as int));
                assert(rest.last() == self.entries@[i as int]@);
            }
            if str_eq(self.entries[i].name.as_str(), name) {
                return Some(i);
            }
        }
        assert(all.take(0) =~= Seq::empty());
        None
    }
}

} // verus!
