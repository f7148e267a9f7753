//! The compile engine: which projects a request builds with which compiler,
//! and what is to be done next while they are built.

use vstd::prelude::*;
use vstd::string::*;
use crate::banner::{BannerView, CompFooter, CompHeader};
use crate::compiler_config::{
    CompilerConfiguration, CompilerConfigurationView, CompilerConfigurations, RegistryView,
};
use crate::error::ProjectsError;
use crate::ids::{as_position, lemma_position_found, lemma_position_of, position_of};
use crate::links::{find_link, link_ids, link_position, link_targets, refers_to};
use crate::project::{project_views, Project, ProjectLink, ProjectView};
use crate::projects_data::ProjectsData;
use crate::projects_model::{project_ids, ProjectsDataView};

verus! {

/// What is to be compiled.
#[allow(inconsistent_fields)]
#[derive(Clone, Copy, Debug, PartialEq, Eq, Structural)]
pub enum CompileProjectParams {
    /// One project, as seen from the link it was picked by, if any.
    Project { project_id: usize, project_link_id: Option<usize>, rebuild: bool },
    /// All projects of a workspace.
    AllInWorkspace { workspace_id: usize, rebuild: bool },
    /// All projects of the group project.
    AllInGroupProject { rebuild: bool },
    /// The project of a link and all that follow it in its container.
    FromLink { project_link_id: usize, rebuild: bool },
}

/// The projects that a request builds, in order, and the compiler that
/// builds them.
#[derive(Debug)]
pub struct CompilationParameters {
    pub projects: Vec<Project>,
    pub configuration: CompilerConfiguration,
    pub rebuild: bool,
    pub single: bool,
    pub header: CompHeader,
    pub footer: CompFooter,
}

/// The parameters of a compile invocation as a value.
pub struct CompilationPlan {
    pub projects: Seq<ProjectView>,
    pub configuration: CompilerConfigurationView,
    pub rebuild: bool,
    pub single: bool,
    pub header: BannerView,
    pub footer: BannerView,
}

impl View for CompilationParameters {
    type V = CompilationPlan;

    open spec fn view(&self) -> CompilationPlan {
        CompilationPlan {
            projects: project_views(self.projects@),
            configuration: self.configuration@,
            rebuild: self.rebuild,
            single: self.single,
            header: self.header@,
            footer: self.footer@,
        }
    }
}

/// The compiler that was found, or the failure to find one.
pub open spec fn compiler_or_error(found: Option<CompilerConfigurationView>) -> Result<
    CompilerConfigurationView,
    ProjectsError,
> {
    match found {
        Some(c) => Ok(c),
        None => Err(ProjectsError::CompilerNotFound),
    }
}

/// The plan for projects of one container, which a banner names.
pub open spec fn container_plan(
    projects: Seq<ProjectView>,
    configuration: CompilerConfigurationView,
    rebuild: bool,
    entity_type: Seq<char>,
    entity_name: Seq<char>,
    target: Seq<char>,
) -> CompilationPlan {
    let banner = BannerView {
        entity_type,
        entity_name,
        target,
        compiler_name: configuration.product_name,
        rebuild,
    };
    CompilationPlan {
        projects,
        configuration,
        rebuild,
        single: false,
        header: banner,
        footer: banner,
    }
}

/// The name of the first project, or a stand-in where there is none.
pub open spec fn first_name(projects: Seq<ProjectView>) -> Seq<char> {
    if projects.len() > 0 {
        projects[0].name
    } else {
        "<unknown>"@
    }
}

impl ProjectsDataView {
    /// The compiler of the workspace at place `w`.
    pub open spec fn workspace_compiler(self, w: int, registry: RegistryView) -> Result<
        CompilerConfigurationView,
        ProjectsError,
    > {
        compiler_or_error(registry.get(self.workspaces[w].compiler_id))
    }

    /// For each workspace, whether one of its links refers to the project.
    pub open spec fn referrers(self, project_id: usize) -> Seq<bool> {
        self.workspaces.map_values(
            |w: crate::workspace::WorkspaceView|
                link_targets(w.project_links).contains(project_id),
        )
    }

    /// For each link, whether it refers to no project.
    pub open spec fn unresolved(self, links: Seq<ProjectLink>) -> Seq<bool> {
        links.map_values(|l: ProjectLink| self.project_position(l.project_id) is None)
    }

    /// The projects that the links refer to, in the order of the links. The
    /// first link that refers to no project makes the resolution fail.
    pub open spec fn resolved(self, links: Seq<ProjectLink>) -> Result<
        Seq<ProjectView>,
        ProjectsError,
    > {
        match position_of(self.unresolved(links), true) {
            Some(i) => Err(ProjectsError::ProjectNotFound { id: links[i].project_id }),
            None => Ok(links.map_values(|l: ProjectLink| self.project(l.project_id)->0)),
        }
    }

    /// The compiler for one project. Seen from a link, it is the compiler of
    /// the container that holds the link. Else it is that of the first
    /// workspace that refers to the project, or that of the group project
    /// where only the group project refers to it.
    pub open spec fn project_configuration(
        self,
        project_id: usize,
        project_link_id: Option<usize>,
        registry: RegistryView,
    ) -> Result<CompilerConfigurationView, ProjectsError> {
        match project_link_id {
            Some(l) => if self.link_in_group(l) {
                compiler_or_error(self.group_projects_compiler(registry))
            } else {
                match self.link_workspace(l) {
                    Some(w) => self.workspace_compiler(w, registry),
                    None => Err(ProjectsError::LinkNotContained { id: l }),
                }
            },
            None => match position_of(self.referrers(project_id), true) {
                Some(w) => self.workspace_compiler(w, registry),
                None => if link_targets(self.group_links()).contains(project_id) {
                    compiler_or_error(self.group_projects_compiler(registry))
                } else {
                    Err(ProjectsError::ProjectNotLinked { id: project_id })
                },
            },
        }
    }

    /// The plan for one project.
    pub open spec fn project_plan(
        self,
        project_id: usize,
        project_link_id: Option<usize>,
        rebuild: bool,
        registry: RegistryView,
    ) -> Result<CompilationPlan, ProjectsError> {
        match self.project(project_id) {
            None => Err(ProjectsError::ProjectNotFound { id: project_id }),
            Some(p) => match self.project_configuration(project_id, project_link_id, registry) {
                Err(e) => Err(e),
                Ok(c) => match p.project_file() {
                    None => Err(ProjectsError::NoProjectFile { id: p.id }),
                    Some(target) => Ok(
                        CompilationPlan {
                            single: true,
                            ..container_plan(seq![p], c, rebuild, "Project"@, p.name, target)
                        },
                    ),
                },
            },
        }
    }

    /// The plan for all projects of a workspace.
    pub open spec fn workspace_plan(
        self,
        workspace_id: usize,
        rebuild: bool,
        registry: RegistryView,
    ) -> Result<CompilationPlan, ProjectsError> {
        match self.workspace_position(workspace_id) {
            None => Err(ProjectsError::WorkspaceNotFound { id: workspace_id }),
            Some(w) => match self.workspace_compiler(w, registry) {
                Err(e) => Err(e),
                Ok(c) => match self.resolved(self.workspaces[w].project_links) {
                    Err(e) => Err(e),
                    Ok(projects) => Ok(
                        container_plan(
                            projects,
                            c,
                            rebuild,
                            "Workspace"@,
                            self.workspaces[w].name,
                            "Projects of Workspace '"@ + self.workspaces[w].name + "'"@,
                        ),
                    ),
                },
            },
        }
    }

    /// The plan for all projects of the group project.
    pub open spec fn group_plan(self, rebuild: bool, registry: RegistryView) -> Result<
        CompilationPlan,
        ProjectsError,
    > {
        match self.group_project {
            None => Err(ProjectsError::NoGroupProject),
            Some(g) => match compiler_or_error(self.group_projects_compiler(registry)) {
                Err(e) => Err(e),
                Ok(c) => match self.resolved(g.project_links) {
                    Err(e) => Err(e),
                    Ok(projects) => Ok(
                        container_plan(
                            projects,
                            c,
                            rebuild,
                            "Group Project"@,
                            g.name,
                            "Projects of Group Project '"@ + g.name + "'"@,
                        ),
                    ),
                },
            },
        }
    }

    /// The plan for the projects of a container from one link on.
    pub open spec fn tail_plan(
        projects: Seq<ProjectView>,
        configuration: CompilerConfigurationView,
        rebuild: bool,
        container: Seq<char>,
        name: Seq<char>,
    ) -> CompilationPlan {
        container_plan(
            projects,
            configuration,
            rebuild,
            container + " '"@ + name + "'"@,
            "Project "@ + first_name(projects),
            "Projects of "@ + container + " '"@ + name + "' from project "@ + first_name(
                projects,
            ),
        )
    }

    /// The plan for the project of a link and all that follow it in its
    /// container.
    pub open spec fn from_link_plan(
        self,
        project_link_id: usize,
        rebuild: bool,
        registry: RegistryView,
    ) -> Result<CompilationPlan, ProjectsError> {
        match self.link_workspace(project_link_id) {
            Some(w) => {
                let links = self.workspaces[w].project_links;
                let from = link_position(links, project_link_id)->0;
                match self.resolved(links.skip(from)) {
                    Err(e) => Err(e),
                    Ok(projects) => match self.workspace_compiler(w, registry) {
                        Err(e) => Err(e),
                        Ok(c) => Ok(
                            Self::tail_plan(
                                projects,
                                c,
                                rebuild,
                                "Workspace"@,
                                self.workspaces[w].name,
                            ),
                        ),
                    },
                }
            },
            None => match self.group_project {
                Some(g) => match link_position(g.project_links, project_link_id) {
                    None => Err(ProjectsError::ProjectLinkNotFound { id: project_link_id }),
                    Some(from) => match self.resolved(g.project_links.skip(from)) {
                        Err(e) => Err(e),
                        Ok(projects) => match compiler_or_error(
                            self.group_projects_compiler(registry),
                        ) {
                            Err(e) => Err(e),
                            Ok(c) => Ok(
                                Self::tail_plan(projects, c, rebuild, "Group Project"@, g.name),
                            ),
                        },
                    },
                },
                None => Err(ProjectsError::LinkNotContained { id: project_link_id }),
            },
        }
    }

    /// The plan for a request.
    pub open spec fn plan(self, params: CompileProjectParams, registry: RegistryView) -> Result<
        CompilationPlan,
        ProjectsError,
    > {
        match params {
            CompileProjectParams::Project { project_id, project_link_id, rebuild } =>
                self.project_plan(project_id, project_link_id, rebuild, registry),
            CompileProjectParams::AllInWorkspace { workspace_id, rebuild } => self.workspace_plan(
                workspace_id,
                rebuild,
                registry,
            ),
            CompileProjectParams::AllInGroupProject { rebuild } => self.group_plan(
                rebuild,
                registry,
            ),
            CompileProjectParams::FromLink { project_link_id, rebuild } => self.from_link_plan(
                project_link_id,
                rebuild,
                registry,
            ),
        }
    }
}

/// The parameters either are the plan that is expected, or there are none
/// and the error is the one that is expected.
pub open spec fn plans(
    r: Result<CompilationParameters, ProjectsError>,
    expected: Result<CompilationPlan, ProjectsError>,
) -> bool {
    match r {
        Ok(p) => expected == Ok::<CompilationPlan, ProjectsError>(p@),
        Err(e) => expected == Err::<CompilationPlan, ProjectsError>(e),
    }
}

/// One compile request against a snapshot of the model and of the
/// registry.
#[derive(Debug)]
pub struct Compiler {
    pub params: CompileProjectParams,
    pub projects_data: ProjectsData,
    pub compilers: CompilerConfigurations,
}

fn quoted_name(prefix: &str, name: &str) -> (r: String)
    ensures
        r@ == prefix@ + name@ + "'"@,
{
    let mut text = String::from_str(prefix);
    text.append(name);
    text.append("'");
    text
}

fn make_plan(
    projects: Vec<Project>,
    configuration: CompilerConfiguration,
    rebuild: bool,
    single: bool,
    entity_type: String,
    entity_name: String,
    target: String,
) -> (r: CompilationParameters)
    ensures
        r@ == (CompilationPlan {
            single,
            ..container_plan(
                project_views(projects@),
                configuration@,
                rebuild,
                entity_type@,
                entity_name@,
                target@,
            )
        }),
{
    let header = CompHeader::new(
        entity_type.clone(),
        entity_name.clone(),
        target.clone(),
        configuration.product_name.clone(),
        rebuild,
    );
    let footer = CompFooter::new(
        entity_type,
        entity_name,
        target,
        configuration.product_name.clone(),
        rebuild,
    );
    CompilationParameters { projects, configuration, rebuild, single, header, footer }
}

fn make_tail_plan(
    projects: Vec<Project>,
    configuration: CompilerConfiguration,
    rebuild: bool,
    container: &str,
    name: &str,
) -> (r: CompilationParameters)
    ensures
        r@ == ProjectsDataView::tail_plan(
            project_views(projects@),
            configuration@,
            rebuild,
            container@,
            name@,
        ),
{
    let project_name = if projects.len() > 0 {
        projects[0].name.clone()
    } else {
        String::from_str("<unknown>")
    };
    let mut entity_type = String::from_str(container);
    entity_type.append(" '");
    entity_type.append(name);
    entity_type.append("'");
    let mut entity_name = String::from_str("Project ");
    entity_name.append(project_name.as_str());
    let mut target = String::from_str("Projects of ");
    target.append(container);
    target.append(" '");
    target.append(name);
    target.append("' from project ");
    target.append(project_name.as_str());
    proof {
        assert(target@ =~= "Projects of "@ + container@ + " '"@ + name@ + "' from project "@
            + project_name@);
    }
    make_plan(projects, configuration, rebuild, false, entity_type, entity_name, target)
}

fn found_compiler(found: Option<CompilerConfiguration>) -> (r: Result<
    CompilerConfiguration,
    ProjectsError,
>)
    ensures
        match r {
            Ok(c) => found matches Some(f) && f == c,
            Err(e) => found is None && e == ProjectsError::CompilerNotFound,
        },
{
    match found {
        Some(c) => Ok(c),
        None => Err(ProjectsError::CompilerNotFound),
    }
}

impl Compiler {
    /// A request against the given snapshots.
    pub fn new(
        params: CompileProjectParams,
        projects_data: ProjectsData,
        compilers: CompilerConfigurations,
    ) -> (r: Compiler)
        ensures
            r.params == params,
            r.projects_data == projects_data,
            r.compilers == compilers,
    {
        Compiler { params, projects_data, compilers }
    }

    fn workspace_compiler(&self, w: usize) -> (r: Result<CompilerConfiguration, ProjectsError>)
        requires
            w < self.projects_data.workspaces@.len(),
        ensures
            match r {
                Ok(c) => self.projects_data@.workspace_compiler(w as int, self.compilers@) == Ok::<
                    _,
                    ProjectsError,
                >(c@),
                Err(e) => self.projects_data@.workspace_compiler(w as int, self.compilers@) == Err::<
                    CompilerConfigurationView,
                    _,
                >(e),
            },
    {
        found_compiler(self.projects_data.workspaces[w].compiler(&self.compilers))
    }

    fn group_compiler(&self) -> (r: Result<CompilerConfiguration, ProjectsError>)
        ensures
            match r {
                Ok(c) => compiler_or_error(
                    self.projects_data@.group_projects_compiler(self.compilers@),
                ) == Ok::<_, ProjectsError>(c@),
                Err(e) => compiler_or_error(
                    self.projects_data@.group_projects_compiler(self.compilers@),
                ) == Err::<CompilerConfigurationView, _>(e),
            },
    {
        found_compiler(self.projects_data.group_projects_compiler(&self.compilers))
    }

    /// The projects that the links refer to from place `from` on.
    fn resolve_links(&self, links: &Vec<ProjectLink>, from: usize) -> (r: Result<
        Vec<Project>,
        ProjectsError,
    >)
        requires
            from <= links@.len(),
        ensures
            match r {
                Ok(projects) => self.projects_data@.resolved(links@.skip(from as int)) == Ok::<
                    _,
                    ProjectsError,
                >(project_views(projects@)),
                Err(e) => self.projects_data@.resolved(links@.skip(from as int)) == Err::<
                    Seq<ProjectView>,
                    _,
                >(e),
            },
    {
        let ghost tail = links@.skip(from as int);
        let ghost flags = self.projects_data@.unresolved(tail);
        let mut projects: Vec<Project> = Vec::new();
        let mut i: usize = from;
        while i < links.len()
            invariant
                from <= i <= links@.len(),
                tail == links@.skip(from as int),
                flags == self.projects_data@.unresolved(tail),
                projects@.len() == i - from,
                forall|j: int| 0 <= j < i - from ==> !flags[j],
                forall|j: int|
                    0 <= j < i - from ==> (#[trigger] projects@[j])@
                        == self.projects_data@.project(tail[j].project_id)->0,
            decreases links@.len() - i,
        {
            let link = links[i];
            proof {
                lemma_position_of(project_ids(self.projects_data@.projects), link.project_id);
            }
            match self.projects_data.get_project(link.project_id) {
                Some(project) => {
                    projects.push(project.clone());
                },
                None => {
                    proof {
                        lemma_position_found(flags, true, i - from);
                    }
                    return Err(ProjectsError::ProjectNotFound { id: link.project_id });
                },
            }
            i += 1;
        }
        proof {
            lemma_position_of(flags, true);
            assert(project_views(projects@) =~= tail.map_values(
                |l: ProjectLink| self.projects_data@.project(l.project_id)->0,
            ));
        }
        Ok(projects)
    }

    /// The place of the first workspace with a link to the project.
    fn first_referrer(&self, project_id: usize) -> (r: Option<usize>)
        ensures
            as_position(r) == position_of(self.projects_data@.referrers(project_id), true),
            r matches Some(w) ==> w < self.projects_data.workspaces@.len(),
    {
        let ghost flags = self.projects_data@.referrers(project_id);
        let mut i: usize = 0;
        while i < self.projects_data.workspaces.len()
            invariant
                i <= self.projects_data.workspaces@.len(),
                flags == self.projects_data@.referrers(project_id),
                forall|j: int| 0 <= j < i ==> !flags[j],
            decreases self.projects_data.workspaces@.len() - i,
        {
            if refers_to(&self.projects_data.workspaces[i].project_links, project_id) {
                proof {
                    lemma_position_found(flags, true, i as int);
                }
                return Some(i);
            }
            i += 1;
        }
        proof {
            lemma_position_of(flags, true);
        }
        None
    }

    fn project_configuration(&self, project_id: usize, project_link_id: Option<usize>) -> (r:
        Result<CompilerConfiguration, ProjectsError>)
        ensures
            match r {
                Ok(c) => self.projects_data@.project_configuration(
                    project_id,
                    project_link_id,
                    self.compilers@,
                ) == Ok::<_, ProjectsError>(c@),
                Err(e) => self.projects_data@.project_configuration(
                    project_id,
                    project_link_id,
                    self.compilers@,
                ) == Err::<CompilerConfigurationView, _>(e),
            },
    {
        match project_link_id {
            Some(link_id) => {
                if self.projects_data.is_project_link_in_group_project(link_id) {
                    self.group_compiler()
                } else {
                    match self.projects_data.get_workspace_index_containing_project_link(
                        link_id,
                    ) {
                        Some(w) => self.workspace_compiler(w),
                        None => Err(ProjectsError::LinkNotContained { id: link_id }),
                    }
                }
            },
            None => match self.first_referrer(project_id) {
                Some(w) => self.workspace_compiler(w),
                None => {
                    let in_group = match &self.projects_data.group_project {
                        Some(group_project) => refers_to(&group_project.project_links, project_id),
                        None => {
                            assert(link_targets(self.projects_data@.group_links()) =~= Seq::<
                                usize,
                            >::empty());
                            false
                        },
                    };
                    if in_group {
                        self.group_compiler()
                    } else {
                        Err(ProjectsError::ProjectNotLinked { id: project_id })
                    }
                },
            },
        }
    }

    /// The plan for one project.
    pub fn get_project_parameters(
        &self,
        project_id: usize,
        project_link_id: Option<usize>,
        rebuild: bool,
    ) -> (r: Result<CompilationParameters, ProjectsError>)
        ensures
            plans(
                r,
                self.projects_data@.project_plan(
                    project_id,
                    project_link_id,
                    rebuild,
                    self.compilers@,
                ),
            ),
    {
        proof {
            lemma_position_of(project_ids(self.projects_data@.projects), project_id);
        }
        let project = match self.projects_data.get_project(project_id) {
            Some(p) => p,
            None => {
                return Err(ProjectsError::ProjectNotFound { id: project_id });
            },
        };
        let configuration = match self.project_configuration(project_id, project_link_id) {
            Ok(c) => c,
            Err(e) => {
                return Err(e);
            },
        };
        let target = match project.get_project_file() {
            Ok(t) => t,
            Err(e) => {
                return Err(e);
            },
        };
        let mut projects: Vec<Project> = Vec::new();
        projects.push(project.clone());
        assert(project_views(projects@) =~= seq![project@]);
        Ok(
            make_plan(
                projects,
                configuration,
                rebuild,
                true,
                String::from_str("Project"),
                project.name.clone(),
                target,
            ),
        )
    }

    /// The plan for all projects of a workspace.
    pub fn get_all_workspace_parameters(&self, workspace_id: usize, rebuild: bool) -> (r: Result<
        CompilationParameters,
        ProjectsError,
    >)
        ensures
            plans(r, self.projects_data@.workspace_plan(workspace_id, rebuild, self.compilers@)),
    {
        let w = match self.projects_data.get_workspace_index(workspace_id) {
            Some(w) => w,
            None => {
                return Err(ProjectsError::WorkspaceNotFound { id: workspace_id });
            },
        };
        proof {
            lemma_position_of(
                crate::projects_model::workspace_ids(self.projects_data@.workspaces),
                workspace_id,
            );
        }
        let workspace = &self.projects_data.workspaces[w];
        let configuration = match self.workspace_compiler(w) {
            Ok(c) => c,
            Err(e) => {
                return Err(e);
            },
        };
        assert(workspace.project_links@.skip(0) =~= workspace.project_links@);
        let projects = match self.resolve_links(&workspace.project_links, 0) {
            Ok(p) => p,
            Err(e) => {
                return Err(e);
            },
        };
        Ok(
            make_plan(
                projects,
                configuration,
                rebuild,
                false,
                String::from_str("Workspace"),
                workspace.name.clone(),
                quoted_name("Projects of Workspace '", workspace.name.as_str()),
            ),
        )
    }

    /// The plan for all projects of the group project.
    pub fn get_all_group_project_parameters(&self, rebuild: bool) -> (r: Result<
        CompilationParameters,
        ProjectsError,
    >)
        ensures
            plans(r, self.projects_data@.group_plan(rebuild, self.compilers@)),
    {
        let group_project = match &self.projects_data.group_project {
            Some(g) => g,
            None => {
                return Err(ProjectsError::NoGroupProject);
            },
        };
        let configuration = match self.group_compiler() {
            Ok(c) => c,
            Err(e) => {
                return Err(e);
            },
        };
        assert(group_project.project_links@.skip(0) =~= group_project.project_links@);
        let projects = match self.resolve_links(&group_project.project_links, 0) {
            Ok(p) => p,
            Err(e) => {
                return Err(e);
            },
        };
        Ok(
            make_plan(
                projects,
                configuration,
                rebuild,
                false,
                String::from_str("Group Project"),
                group_project.name.clone(),
                quoted_name("Projects of Group Project '", group_project.name.as_str()),
            ),
        )
    }

    /// The plan for the project of a link and all that follow it in its
    /// container.
    pub fn get_from_link_parameters(&self, project_link_id: usize, rebuild: bool) -> (r: Result<
        CompilationParameters,
        ProjectsError,
    >)
        ensures
            plans(r, self.projects_data@.from_link_plan(project_link_id, rebuild, self.compilers@)),
    {
        match self.projects_data.get_workspace_index_containing_project_link(project_link_id) {
            Some(w) => {
                let workspace = &self.projects_data.workspaces[w];
                let from = match find_link(&workspace.project_links, project_link_id) {
                    Some(from) => from,
                    None => {
                        return Err(ProjectsError::ProjectLinkNotFound { id: project_link_id });
                    },
                };
                proof {
                    lemma_position_of(link_ids(workspace.project_links@), project_link_id);
                }
                let projects = match self.resolve_links(&workspace.project_links, from) {
                    Ok(p) => p,
                    Err(e) => {
                        return Err(e);
                    },
                };
                let configuration = match self.workspace_compiler(w) {
                    Ok(c) => c,
                    Err(e) => {
                        return Err(e);
                    },
                };
                Ok(
                    make_tail_plan(
                        projects,
                        configuration,
                        rebuild,
                        "Workspace",
                        workspace.name.as_str(),
                    ),
                )
            },
            None => match &self.projects_data.group_project {
                Some(group_project) => {
                    let from = match find_link(&group_project.project_links, project_link_id) {
                        Some(from) => from,
                        None => {
                            return Err(
                                ProjectsError::ProjectLinkNotFound { id: project_link_id },
                            );
                        },
                    };
                    proof {
                        lemma_position_of(
                            link_ids(group_project.project_links@),
                            project_link_id,
                        );
                    }
                    let projects = match self.resolve_links(&group_project.project_links, from) {
                        Ok(p) => p,
                        Err(e) => {
                            return Err(e);
                        },
                    };
                    let configuration = match self.group_compiler() {
                        Ok(c) => c,
                        Err(e) => {
                            return Err(e);
                        },
                    };
                    Ok(
                        make_tail_plan(
                            projects,
                            configuration,
                            rebuild,
                            "Group Project",
                            group_project.name.as_str(),
                        ),
                    )
                },
                None => Err(ProjectsError::LinkNotContained { id: project_link_id }),
            },
        }
    }

    /// Resolves the request: the projects to build, in order, and the
    /// compiler that builds them. Any id that does not resolve makes the
    /// whole request fail.
    pub fn resolve(&self) -> (r: Result<CompilationParameters, ProjectsError>)
        ensures
            plans(r, self.projects_data@.plan(self.params, self.compilers@)),
    {
        match self.params {
            CompileProjectParams::Project { project_id, project_link_id, rebuild } =>
                self.get_project_parameters(project_id, project_link_id, rebuild),
            CompileProjectParams::AllInWorkspace { workspace_id, rebuild } =>
                self.get_all_workspace_parameters(workspace_id, rebuild),
            CompileProjectParams::AllInGroupProject { rebuild } =>
                self.get_all_group_project_parameters(rebuild),
            CompileProjectParams::FromLink { project_link_id, rebuild } =>
                self.get_from_link_parameters(project_link_id, rebuild),
        }
    }
}

} // verus!
