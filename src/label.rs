use vstd::prelude::*;
use vstd::string::StringExecFns;

verus! {

/// The kinds of forwarder that a node can spawn.
#[derive(Clone, Copy, Debug, PartialEq, Eq, Structural)]
pub enum Ftype {
    Static,
    Ephemeral,
}

/// The roles that a forwarder exposes an address for.
#[derive(Clone, Copy, Debug, PartialEq, Eq, Structural)]
pub enum Role {
    /// Reached by the remote service.
    MainRemote,
    /// Reached by other actors of the node.
    MainInternal,
    /// Receives heartbeats.
    Heartbeat,
    /// Receives the completion callback.
    Child,
}

/// The subsystem's namespace that starts every label.
pub open spec fn namespace() -> Seq<char> {
    "RemoteForwarder"@
}

/// The segment that separates the parts of a label.
pub open spec fn separator() -> Seq<char> {
    "."@
}

impl Ftype {
    /// The short tag of the kind.
    pub open spec fn tag(self) -> Seq<char> {
        match self {
            Ftype::Static => "static"@,
            Ftype::Ephemeral => "ephemeral"@,
        }
    }

    /// The short tag of the kind, as text.
    pub fn str(&self) -> (r: &'static str)
        ensures
            r@ == self.tag(),
    {
        match self {
            Ftype::Static => "static",
            Ftype::Ephemeral => "ephemeral",
        }
    }
}

impl Role {
    /// The name of the role.
    pub open spec fn name(self) -> Seq<char> {
        match self {
            Role::MainRemote => "main_remote"@,
            Role::MainInternal => "main_internal"@,
            Role::Heartbeat => "heartbeat"@,
            Role::Child => "child"@,
        }
    }

    /// The name of the role, as text.
    pub fn str(&self) -> (r: &'static str)
        ensures
            r@ == self.name(),
    {
        match self {
            Role::MainRemote => "main_remote",
            Role::MainInternal => "main_internal",
            Role::Heartbeat => "heartbeat",
            Role::Child => "child",
        }
    }
}

/// The roles of a bundle, in the order in which their addresses are allocated.
pub open spec fn role_order() -> Seq<Role> {
    seq![Role::MainRemote, Role::MainInternal, Role::Heartbeat, Role::Child]
}

/// What stands before the kind's tag in every label.
pub open spec fn label_prefix() -> Seq<char> {
    namespace() + separator()
}

/// What follows the kind's tag in a label of the role.
pub open spec fn label_suffix(role: Role) -> Seq<char> {
    separator() + role.name()
}

/// The label of a role of a forwarder of a kind: namespace, kind tag and
/// role name, joined by the separator.
pub open spec fn label_of(ftype: Ftype, role: Role) -> Seq<char> {
    label_prefix() + ftype.tag() + label_suffix(role)
}

/// The roles of a bundle, in the order in which their addresses are allocated.
pub fn roles() -> (r: Vec<Role>)
    ensures
        r@ == role_order(),
{
    let r = vec![Role::MainRemote, Role::MainInternal, Role::Heartbeat, Role::Child];
    assert(r@ =~= role_order());
    r
}

/// Formats the label of a role of a forwarder of the given kind.
pub fn label(ftype: Ftype, role: Role) -> (r: String)
    ensures
        r@ == label_of(ftype, role),
{
    let mut s = String::from_str("RemoteForwarder");
    s.append(".");
    s.append(ftype.str());
    s.append(".");
    s.append(role.str());
    assert(s@ =~= label_of(ftype, role));
    s
}

/// Two kinds' labels for one role differ in the kind tag alone: each is the
/// common prefix, the kind's tag and the role's common suffix, and the tags
/// of distinct kinds differ and hold no separator.
pub proof fn lemma_labels_differ_in_tag_only(k1: Ftype, k2: Ftype, role: Role)
    requires
        k1 != k2,
    ensures
        label_of(k1, role) == label_prefix() + k1.tag() + label_suffix(role),
        label_of(k2, role) == label_prefix() + k2.tag() + label_suffix(role),
        k1.tag() != k2.tag(),
        !k1.tag().contains('.'),
        !k2.tag().contains('.'),
{
    reveal_strlit("static");
    reveal_strlit("ephemeral");
    assert(k1.tag().len() != k2.tag().len());
    assert(!"static"@.contains('.'));
    assert(!"ephemeral"@.contains('.'));
}

/// A label tells its kind and its role: no two (kind, role) pairs share one.
pub proof fn lemma_label_identifies(k1: Ftype, r1: Role, k2: Ftype, r2: Role)
    requires
        label_of(k1, r1) == label_of(k2, r2),
    ensures
        k1 == k2,
        r1 == r2,
{
    reveal_strlit("RemoteForwarder");
    reveal_strlit(".");
    reveal_strlit("static");
    reveal_strlit("ephemeral");
    reveal_strlit("main_remote");
    reveal_strlit("main_internal");
    reveal_strlit("heartbeat");
    reveal_strlit("child");
    assert(label_of(k1, r1).len() == 17 + k1.tag().len() + r1.name().len());
    assert(label_of(k2, r2).len() == 17 + k2.tag().len() + r2.name().len());
    assert(k1.tag().len() == 6 || k1.tag().len() == 9);
    match r1 {
        Role::MainRemote => assert(r1.name().len() == 11),
        Role::MainInternal => assert(r1.name().len() == 13),
        Role::Heartbeat => assert(r1.name().len() == 9),
        Role::Child => assert(r1.name().len() == 5),
    }
    match r2 {
        Role::MainRemote => assert(r2.name().len() == 11),
        Role::MainInternal => assert(r2.name().len() == 13),
        Role::Heartbeat => assert(r2.name().len() == 9),
        Role::Child => assert(r2.name().len() == 5),
    }
}

/// Labelling is deterministic: two labels formatted for the same kind and
/// role are the same string.
pub proof fn lemma_label_deterministic(ftype: Ftype, role: Role, first: String, second: String)
    requires
        first@ == label_of(ftype, role),
        second@ == label_of(ftype, role),
    ensures
        first@ == second@,
{
}

} // verus!
