use vstd::prelude::*;
use vstd::string::*;
use crate::error::{EngineError, EngineErrorCause, EngineErrorScope};

verus! {

/// Longest release name the chart manager is given.
pub const RELEASE_NAME_MAX_LEN: usize = 50;

/// The lifecycle operation requested for a service.
#[derive(Clone, Copy, Debug, PartialEq, Eq, Hash)]
pub enum Action {
    Create,
    Pause,
    Delete,
}

#[derive(Clone, Copy, Debug, PartialEq, Eq, Hash)]
pub enum ServiceType {
    ExternalService,
}

/// How long the chart manager may wait for a release to come up.
#[derive(Clone, Copy, Debug, PartialEq, Eq, Hash)]
pub enum Timeout {
    Default,
    Value(u32),
}

/// A built artifact: its name, tag, source commit and, once pushed, its
/// full reference in a registry.
#[derive(Clone, Debug, PartialEq, Eq, Hash)]
pub struct Image {
    pub name: String,
    pub tag: String,
    pub commit_id: String,
    pub registry_url: Option<String>,
}

#[derive(Clone, Debug, PartialEq, Eq, Hash)]
pub struct EnvironmentVariable {
    pub key: String,
    pub value: String,
}

/// What one run of the engine knows about itself.
#[derive(Clone, Debug, PartialEq, Eq, Hash)]
pub struct EngineContext {
    pub execution_id: String,
    pub lib_root_dir: String,
    pub workspace_root_dir: String,
}

/// `"<name>:<tag>"`.
pub open spec fn name_with_tag(name: Seq<char>, tag: Seq<char>) -> Seq<char> {
    name + ":"@ + tag
}

/// `"<kind prefix>-<name>-<id>"`, cut to its first `RELEASE_NAME_MAX_LEN` characters.
pub open spec fn release_name(name: Seq<char>, id: Seq<char>) -> Seq<char> {
    let full = "external-service-"@ + name + "-"@ + id;
    if full.len() <= RELEASE_NAME_MAX_LEN {
        full
    } else {
        full.subrange(0, RELEASE_NAME_MAX_LEN as int)
    }
}

/// The release name never exceeds `RELEASE_NAME_MAX_LEN` characters.
pub proof fn lemma_release_name_bounded(name: Seq<char>, id: Seq<char>)
    ensures
        release_name(name, id).len() <= RELEASE_NAME_MAX_LEN,
{
}

/// Two services with distinct (name, id) get distinct release names, as long as
/// the names hold no `-` and neither full name had to be cut.
pub proof fn lemma_release_name_distinct(
    name1: Seq<char>,
    id1: Seq<char>,
    name2: Seq<char>,
    id2: Seq<char>,
)
    requires
        !name1.contains('-'),
        !name2.contains('-'),
        ("external-service-"@ + name1 + "-"@ + id1).len() <= RELEASE_NAME_MAX_LEN,
        ("external-service-"@ + name2 + "-"@ + id2).len() <= RELEASE_NAME_MAX_LEN,
        name1 != name2 || id1 != id2,
    ensures
        release_name(name1, id1) != release_name(name2, id2),
{
    reveal_strlit("-");
    let p = "external-service-"@;
    let s1 = p + name1 + "-"@ + id1;
    let s2 = p + name2 + "-"@ + id2;
    if s1 == s2 {
        let l = p.len() as int;
        let a = name1.len() as int;
        let b = name2.len() as int;
        if name1.len() < name2.len() {
            assert(s1[l + a] == '-');
            assert(s2[l + a] == name2[a]);
            assert(name2.contains('-'));
        } else if name2.len() < name1.len() {
            assert(s2[l + b] == '-');
            assert(s1[l + b] == name1[b]);
            assert(name1.contains('-'));
        } else {
            assert(name1 =~= s1.subrange(l, l + a));
            assert(name2 =~= s2.subrange(l, l + b));
            assert(id1 =~= s1.subrange(l + a + 1, s1.len() as int));
            assert(id2 =~= s2.subrange(l + b + 1, s2.len() as int));
        }
    }
}

/// `"<name> (<id>)"`.
pub open spec fn name_with_id(name: Seq<char>, id: Seq<char>) -> Seq<char> {
    name + " ("@ + id + ")"@
}

impl Image {
    pub fn name_with_tag(&self) -> (r: String)
        ensures
            r@ == name_with_tag(self.name@, self.tag@),
    {
        let mut r = self.name.clone();
        r.append(":");
        r.append(self.tag.as_str());
        r
    }
}

/// A copy of a list of environment variables.
pub fn copy_variables(vars: &Vec<EnvironmentVariable>) -> (r: Vec<EnvironmentVariable>)
    ensures
        r@ == vars@,
{
    let mut r: Vec<EnvironmentVariable> = Vec::new();
    let mut i: usize = 0;
    while i < vars.len()
        invariant
            i <= vars@.len(),
            r@ == vars@.subrange(0, i as int),
        decreases vars@.len() - i,
    {
        let v = &vars[i];
        r.push(EnvironmentVariable { key: v.key.clone(), value: v.value.clone() });
        i = i + 1;
    }
    assert(r@ =~= vars@);
    r
}

/// A job run once from a built image, with its sizing and environment.
#[derive(Clone, Debug, PartialEq, Eq, Hash)]
pub struct ExternalService {
    context: EngineContext,
    id: String,
    action: Action,
    name: String,
    total_cpus: String,
    total_ram_in_mib: u32,
    image: Image,
    environment_variables: Vec<EnvironmentVariable>,
}

impl ExternalService {
    pub closed spec fn spec_context(&self) -> EngineContext {
        self.context
    }

    pub closed spec fn spec_id(&self) -> Seq<char> {
        self.id@
    }

    pub closed spec fn spec_action(&self) -> Action {
        self.action
    }

    pub closed spec fn spec_name(&self) -> Seq<char> {
        self.name@
    }

    pub closed spec fn spec_total_cpus(&self) -> Seq<char> {
        self.total_cpus@
    }

    pub closed spec fn spec_total_ram_in_mib(&self) -> u32 {
        self.total_ram_in_mib
    }

    pub closed spec fn spec_image(&self) -> Image {
        self.image
    }

    pub closed spec fn spec_environment_variables(&self) -> Seq<EnvironmentVariable> {
        self.environment_variables@
    }

    pub fn new(
        context: EngineContext,
        id: &str,
        action: Action,
        name: &str,
        total_cpus: String,
        total_ram_in_mib: u32,
        image: Image,
        environment_variables: Vec<EnvironmentVariable>,
    ) -> (r: Self)
        ensures
            r.spec_context() == context,
            r.spec_id() == id@,
            r.spec_action() == action,
            r.spec_name() == name@,
            r.spec_total_cpus() == total_cpus@,
            r.spec_total_ram_in_mib() == total_ram_in_mib,
            r.spec_image() == image,
            r.spec_environment_variables() == environment_variables@,
    {
        ExternalService {
            context,
            id: String::from_str(id),
            action,
            name: String::from_str(name),
            total_cpus,
            total_ram_in_mib,
            image,
            environment_variables,
        }
    }

    pub fn context(&self) -> (r: &EngineContext)
        ensures
            *r == self.spec_context(),
    {
        &self.context
    }

    pub fn image(&self) -> (r: &Image)
        ensures
            *r == self.spec_image(),
    {
        &self.image
    }

    pub fn set_image(&mut self, image: Image)
        ensures
            final(self).spec_image() == image,
            final(self).spec_context() == old(self).spec_context(),
            final(self).spec_id() == old(self).spec_id(),
            final(self).spec_action() == old(self).spec_action(),
            final(self).spec_name() == old(self).spec_name(),
            final(self).spec_total_cpus() == old(self).spec_total_cpus(),
            final(self).spec_total_ram_in_mib() == old(self).spec_total_ram_in_mib(),
            final(self).spec_environment_variables() == old(self).spec_environment_variables(),
    {
        self.image = image;
    }

    pub fn environment_variables(&self) -> (r: &Vec<EnvironmentVariable>)
        ensures
            r@ == self.spec_environment_variables(),
    {
        &self.environment_variables
    }

    /// The chart release of this service; see [`release_name`].
    pub fn helm_release_name(&self) -> (r: String)
        ensures
            r@ == release_name(self.spec_name(), self.spec_id()),
            r@.len() <= RELEASE_NAME_MAX_LEN,
    {
        let mut full = String::from_str("external-service-");
        full.append(self.name.as_str());
        full.append("-");
        full.append(self.id.as_str());
        let n = full.as_str().unicode_len();
        if n <= RELEASE_NAME_MAX_LEN {
            full
        } else {
            String::from_str(full.as_str().substring_char(0, RELEASE_NAME_MAX_LEN))
        }
    }

    pub fn start_timeout(&self) -> (r: Timeout)
        ensures
            r == Timeout::Default,
    {
        Timeout::Default
    }

    pub fn service_type(&self) -> (r: ServiceType)
        ensures
            r == ServiceType::ExternalService,
    {
        ServiceType::ExternalService
    }

    pub fn id(&self) -> (r: &str)
        ensures
            r@ == self.spec_id(),
    {
        self.id.as_str()
    }

    pub fn name(&self) -> (r: &str)
        ensures
            r@ == self.spec_name(),
    {
        self.name.as_str()
    }

    /// The commit the running image was built from.
    pub fn version(&self) -> (r: &str)
        ensures
            r@ == self.spec_image().commit_id@,
    {
        self.image.commit_id.as_str()
    }

    pub fn action(&self) -> (r: &Action)
        ensures
            *r == self.spec_action(),
    {
        &self.action
    }

    /// A job exposes no port.
    pub fn private_port(&self) -> (r: Option<u16>)
        ensures
            r is None,
    {
        None
    }

    pub fn total_cpus(&self) -> (r: String)
        ensures
            r@ == self.spec_total_cpus(),
    {
        self.total_cpus.clone()
    }

    pub fn total_ram_in_mib(&self) -> (r: u32)
        ensures
            r == self.spec_total_ram_in_mib(),
    {
        self.total_ram_in_mib
    }

    pub fn total_instances(&self) -> (r: u16)
        ensures
            r == 1,
    {
        1
    }

    pub fn name_with_id(&self) -> (r: String)
        ensures
            r@ == name_with_id(self.spec_name(), self.spec_id()),
    {
        let mut r = self.name.clone();
        r.append(" (");
        r.append(self.id.as_str());
        r.append(")");
        r
    }

    pub fn engine_error_scope(&self) -> (r: EngineErrorScope)
        ensures
            r.names(self.spec_id(), self.spec_name()),
    {
        EngineErrorScope::ExternalService(self.id.clone(), self.name.clone())
    }

    /// An error attributed to this service, in the current execution.
    pub fn engine_error(&self, cause: EngineErrorCause, message: String) -> (r: EngineError)
        ensures
            r.cause == cause,
            r.scope.names(self.spec_id(), self.spec_name()),
            r.execution_id@ == self.spec_context().execution_id@,
            r.message == Some(message),
    {
        EngineError::new(
            cause,
            self.engine_error_scope(),
            self.context.execution_id.clone(),
            Some(message),
        )
    }
}

} // verus!
