use vstd::prelude::*;
use vstd::string::*;
use crate::error::{EngineError, EngineErrorCause};
use crate::service::{name_with_tag, EnvironmentVariable, ExternalService, Image};
use crate::target::{Cluster, DeploymentMode, Environment};

verus! {

#[verifier::external_type_specification]
#[verifier::external_body]
pub struct ExTeraContext(tera::Context);

/// The entries of a template context whose value is a string.
pub uninterp spec fn context_text(c: tera::Context) -> Map<Seq<char>, Seq<char>>;

/// The entries of a template context whose value is a list of `{key, value}` records.
pub uninterp spec fn context_records(c: tera::Context) -> Map<
    Seq<char>,
    Seq<(Seq<char>, Seq<char>)>,
>;

/// Relies on tera::Context::new: a context with no entries.
pub assume_specification[ tera::Context::new ]() -> (r: tera::Context)
    ensures
        context_text(r).dom() == Set::<Seq<char>>::empty(),
        context_records(r).dom() == Set::<Seq<char>>::empty(),
;

/// Relies on tera::Context::insert: the key is bound to the string, replacing
/// what it held (a string always serializes).
#[verifier::external_body]
fn insert_text(ctx: &mut tera::Context, key: &str, value: &str)
    ensures
        context_text(*final(ctx)) == context_text(*old(ctx)).insert(key@, value@),
        context_records(*final(ctx)) == context_records(*old(ctx)).remove(key@),
{
    ctx.insert(key, value);
}

/// Relies on tera::Context::insert: the key is bound to the list of
/// `{key, value}` records, in order, replacing what it held (string maps
/// always serialize).
#[verifier::external_body]
fn insert_records(ctx: &mut tera::Context, key: &str, records: &Vec<EnvironmentVariable>)
    ensures
        context_records(*final(ctx)) == context_records(*old(ctx)).insert(
            key@,
            env_records(records@),
        ),
        context_text(*final(ctx)) == context_text(*old(ctx)).remove(key@),
{
    let rows: Vec<std::collections::BTreeMap<&str, &str>> = records
        .iter()
        .map(|r| std::collections::BTreeMap::from([("key", r.key.as_str()), ("value", r.value.as_str())]))
        .collect();
    ctx.insert(key, &rows);
}

/// Environment variables as `(key, value)` records, in their order.
pub open spec fn env_records(vars: Seq<EnvironmentVariable>) -> Seq<(Seq<char>, Seq<char>)> {
    vars.map_values(|v: EnvironmentVariable| (v.key@, v.value@))
}

/// Length of the version tag taken from the start of a commit id.
pub const VERSION_TAG_LEN: usize = 7;

pub open spec fn mode_text(mode: DeploymentMode) -> Seq<char> {
    match mode {
        DeploymentMode::ManagedServices => "managed-services"@,
        DeploymentMode::SelfHosted => "self-hosted"@,
    }
}

/// The values every chart of a service gets from its cluster and environment.
pub open spec fn default_values(
    id: Seq<char>,
    name: Seq<char>,
    total_cpus: Seq<char>,
    cluster: Cluster,
    environment: Environment,
    mode: DeploymentMode,
) -> Map<Seq<char>, Seq<char>> {
    Map::empty()
        .insert("id"@, id)
        .insert("name"@, name)
        .insert("total_cpus"@, total_cpus)
        .insert("kubernetes_cluster_id"@, cluster.id@)
        .insert("environment_id"@, environment.id@)
        .insert("namespace"@, environment.namespace@)
        .insert("deployment_mode"@, mode_text(mode))
}

/// The image reference a chart deploys: the registry's, or else `"<name>:<tag>"`.
pub open spec fn image_reference(image: Image) -> Seq<char> {
    match image.registry_url {
        Some(url) => url@,
        None => name_with_tag(image.name@, image.tag@),
    }
}

pub open spec fn no_registry_warning(image: Image) -> Seq<char> {
    "there is no registry url, use image name with tag with the default container registry: "@
        + name_with_tag(image.name@, image.tag@)
}

pub open spec fn short_commit_message(commit_id: Seq<char>) -> Seq<char> {
    "commit id is shorter than 7 characters: "@ + commit_id
}

/// Chart values for one render, with the warnings raised while building them.
pub struct ChartValues {
    pub context: tera::Context,
    pub warnings: Vec<String>,
}

impl ExternalService {
    pub open spec fn spec_default_values(
        &self,
        cluster: Cluster,
        environment: Environment,
        mode: DeploymentMode,
    ) -> Map<Seq<char>, Seq<char>> {
        default_values(
            self.spec_id(),
            self.spec_name(),
            self.spec_total_cpus(),
            cluster,
            environment,
            mode,
        )
    }

    /// All string values of the chart of this service.
    pub open spec fn spec_chart_text(
        &self,
        cluster: Cluster,
        environment: Environment,
        mode: DeploymentMode,
    ) -> Map<Seq<char>, Seq<char>> {
        self.spec_default_values(cluster, environment, mode)
            .insert("helm_app_version"@, self.spec_image().commit_id@.subrange(0, VERSION_TAG_LEN as int))
            .insert("image_name_with_tag"@, image_reference(self.spec_image()))
    }

    pub fn default_template_context(
        &self,
        cluster: &Cluster,
        environment: &Environment,
        mode: DeploymentMode,
    ) -> (r: tera::Context)
        ensures
            context_text(r) == self.spec_default_values(*cluster, *environment, mode),
            context_records(r) == Map::<Seq<char>, Seq<(Seq<char>, Seq<char>)>>::empty(),
    {
        let mut ctx = tera::Context::new();
        insert_text(&mut ctx, "id", self.id());
        insert_text(&mut ctx, "name", self.name());
        let cpus = self.total_cpus();
        insert_text(&mut ctx, "total_cpus", cpus.as_str());
        insert_text(&mut ctx, "kubernetes_cluster_id", cluster.id.as_str());
        insert_text(&mut ctx, "environment_id", environment.id.as_str());
        insert_text(&mut ctx, "namespace", environment.namespace.as_str());
        match mode {
            DeploymentMode::ManagedServices => insert_text(&mut ctx, "deployment_mode", "managed-services"),
            DeploymentMode::SelfHosted => insert_text(&mut ctx, "deployment_mode", "self-hosted"),
        }
        assert(context_records(ctx) =~= Map::<Seq<char>, Seq<(Seq<char>, Seq<char>)>>::empty());
        ctx
    }

    /// The chart values of this service: the defaults, the version tag (the
    /// first `VERSION_TAG_LEN` characters of the commit id), the image
    /// reference and the environment variables. A commit id shorter than the
    /// tag is an internal error, raised before anything else is done.
    pub fn chart_context(
        &self,
        cluster: &Cluster,
        environment: &Environment,
        mode: DeploymentMode,
    ) -> (r: Result<ChartValues, EngineError>)
        ensures
            r is Err <==> self.spec_image().commit_id@.len() < VERSION_TAG_LEN,
            r matches Err(e) ==> {
                &&& e.cause == EngineErrorCause::Internal
                &&& e.scope.names(self.spec_id(), self.spec_name())
                &&& e.execution_id@ == self.spec_context().execution_id@
                &&& e.message matches Some(m) && m@ == short_commit_message(
                    self.spec_image().commit_id@,
                )
            },
            r matches Ok(v) ==> {
                &&& context_text(v.context) == self.spec_chart_text(*cluster, *environment, mode)
                &&& context_records(v.context) == map![
                    "environment_variables"@ => env_records(self.spec_environment_variables()),
                ]
                &&& self.spec_image().registry_url is None ==> v.warnings@.len() == 1
                    && v.warnings@[0]@ == no_registry_warning(self.spec_image())
                &&& self.spec_image().registry_url is Some ==> v.warnings@.len() == 0
            },
    {
        let image = self.image();
        let commit_id = image.commit_id.as_str();
        if commit_id.unicode_len() < VERSION_TAG_LEN {
            let message = String::from_str("commit id is shorter than 7 characters: ").concat(
                commit_id,
            );
            return Err(self.engine_error(EngineErrorCause::Internal, message));
        }
        let mut context = self.default_template_context(cluster, environment, mode);
        insert_text(&mut context, "helm_app_version", commit_id.substring_char(0, VERSION_TAG_LEN));
        let mut warnings: Vec<String> = Vec::new();
        match &image.registry_url {
            Some(registry_url) => insert_text(&mut context, "image_name_with_tag", registry_url.as_str()),
            None => {
                let image_name_with_tag = image.name_with_tag();
                warnings.push(
                    String::from_str(
                        "there is no registry url, use image name with tag with the default container registry: ",
                    ).concat(image_name_with_tag.as_str()),
                );
                insert_text(&mut context, "image_name_with_tag", image_name_with_tag.as_str());
            },
        }
        insert_records(&mut context, "environment_variables", self.environment_variables());
        proof {
            reveal_strlit("environment_variables");
            reveal_strlit("id");
            reveal_strlit("name");
            reveal_strlit("total_cpus");
            reveal_strlit("kubernetes_cluster_id");
            reveal_strlit("environment_id");
            reveal_strlit("namespace");
            reveal_strlit("deployment_mode");
            reveal_strlit("helm_app_version");
            reveal_strlit("image_name_with_tag");
            let text = self.spec_chart_text(*cluster, *environment, mode);
            assert("environment_variables"@[0] != "kubernetes_cluster_id"@[0]);
            assert("environment_variables"@ != "kubernetes_cluster_id"@);
            assert("environment_variables"@.len() != "id"@.len());
            let d = self.spec_default_values(*cluster, *environment, mode);
            assert(!d.dom().contains("environment_variables"@));
            assert(!text.dom().contains("environment_variables"@));
            assert(text.remove("environment_variables"@) =~= text);
            assert(context_records(context) =~= map![
                "environment_variables"@ => env_records(self.spec_environment_variables()),
            ]);
        }
        Ok(ChartValues { context, warnings })
    }
}

} // verus!
