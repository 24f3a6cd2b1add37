//! The operations that hand work to the agent script: where the script
//! lies, and how it is called.

use crate::error::{result_view, GatewayError, GatewayErrorView};
use crate::platform::{interpreter_name, Platform};
use crate::process::{Invocation, InvocationView};
use crate::text::{join, joined};
use vstd::prelude::*;

verus! {

/// Where the agent script lies, seen from the directory the application is
/// installed in: so many directories up, then down through the named ones.
#[derive(Clone, Debug, PartialEq, Eq)]
pub struct ScriptLayout {
    pub ascend: usize,
    pub descend: Vec<String>,
}

/// A `ScriptLayout` with its names as character sequences.
pub struct ScriptLayoutView {
    pub ascend: nat,
    pub descend: Seq<Seq<char>>,
}

impl View for ScriptLayout {
    type V = ScriptLayoutView;

    open spec fn view(&self) -> ScriptLayoutView {
        ScriptLayoutView { ascend: self.ascend as nat, descend: self.descend.deep_view() }
    }
}

/// The script lies one directory up, in `public`, as `agent_engine.py`.
pub fn script_layout() -> (layout: ScriptLayout)
    ensures
        layout@ == (ScriptLayoutView { ascend: 1, descend: seq!["public"@, "agent_engine.py"@] }),
{
    let mut descend: Vec<String> = Vec::new();
    descend.push("public".to_owned());
    descend.push("agent_engine.py".to_owned());
    assert(descend.deep_view() =~= seq!["public"@, "agent_engine.py"@]);
    ScriptLayout { ascend: 1, descend }
}

/// What was found at the place where the agent script should lie.
#[derive(Clone, Debug, PartialEq, Eq)]
pub struct ScriptProbe {
    pub location: String,
    pub present: bool,
}

/// A `ScriptProbe` with its location as a character sequence.
pub struct ScriptProbeView {
    pub location: Seq<char>,
    pub present: bool,
}

impl View for ScriptProbe {
    type V = ScriptProbeView;

    open spec fn view(&self) -> ScriptProbeView {
        ScriptProbeView { location: self.location@, present: self.present }
    }
}

/// One run of an agent, as the caller asks for it.
#[derive(Clone, Debug, PartialEq, Eq)]
pub struct AgentInvocation {
    pub agent_id: String,
    pub agent_name: String,
    pub role: String,
    pub goal: String,
    pub tools: Vec<String>,
    pub sandbox: bool,
}

/// An `AgentInvocation` with its texts as character sequences.
pub struct AgentInvocationView {
    pub agent_id: Seq<char>,
    pub agent_name: Seq<char>,
    pub role: Seq<char>,
    pub goal: Seq<char>,
    pub tools: Seq<Seq<char>>,
    pub sandbox: bool,
}

impl View for AgentInvocation {
    type V = AgentInvocationView;

    open spec fn view(&self) -> AgentInvocationView {
        AgentInvocationView {
            agent_id: self.agent_id@,
            agent_name: self.agent_name@,
            role: self.role@,
            goal: self.goal@,
            tools: self.tools.deep_view(),
            sandbox: self.sandbox,
        }
    }
}

/// The last argument of an agent run or a post: `sandbox`, or `prod`.
pub open spec fn deploy_flag(sandbox: bool) -> Seq<char> {
    if sandbox {
        "sandbox"@
    } else {
        "prod"@
    }
}

/// The last argument of a scripted run: `sandbox`, or `live`.
pub open spec fn run_flag(sandbox: bool) -> Seq<char> {
    if sandbox {
        "sandbox"@
    } else {
        "live"@
    }
}

/// How `execute_agent` calls the script: its location, the four fields of
/// the agent, the tool names joined by commas, and the deploy flag.
pub open spec fn execute_agent_plan(script: ScriptProbeView, agent: AgentInvocationView) -> Result<
    InvocationView,
    GatewayErrorView,
> {
    if !script.present {
        Err(GatewayErrorView::NotFound { location: script.location })
    } else {
        Ok(
            InvocationView {
                program: "python"@,
                args: seq![
                    script.location,
                    agent.agent_id,
                    agent.agent_name,
                    agent.role,
                    agent.goal,
                    joined(agent.tools, ","@),
                    deploy_flag(agent.sandbox),
                ],
            },
        )
    }
}

/// How `post_to_linkedin` calls the script: its location, the task name,
/// the content and the deploy flag.
pub open spec fn post_to_linkedin_plan(
    script: ScriptProbeView,
    content: Seq<char>,
    sandbox: bool,
) -> Result<InvocationView, GatewayErrorView> {
    if !script.present {
        Err(GatewayErrorView::NotFound { location: script.location })
    } else {
        Ok(
            InvocationView {
                program: "python"@,
                args: seq![script.location, "linkedin_post"@, content, deploy_flag(sandbox)],
            },
        )
    }
}

/// How `run_python_agent` calls the script: with the interpreter of the
/// platform, its location, the agent and the run flag.
pub open spec fn run_python_agent_plan(
    platform: Platform,
    script: ScriptProbeView,
    agent_id: Seq<char>,
    sandbox: bool,
) -> Result<InvocationView, GatewayErrorView> {
    if !script.present {
        Err(GatewayErrorView::NotFound { location: script.location })
    } else {
        Ok(
            InvocationView {
                program: interpreter_name(platform),
                args: seq![script.location, agent_id, run_flag(sandbox)],
            },
        )
    }
}

/// The flag that tells the script whether an agent run or a post is to
/// stay in the sandbox.
pub fn deploy_mode(sandbox: bool) -> (flag: String)
    ensures
        flag@ == deploy_flag(sandbox),
{
    if sandbox {
        "sandbox".to_owned()
    } else {
        "prod".to_owned()
    }
}

/// The flag that tells the script whether a scripted run is to stay in the
/// sandbox.
pub fn run_mode(sandbox: bool) -> (flag: String)
    ensures
        flag@ == run_flag(sandbox),
{
    if sandbox {
        "sandbox".to_owned()
    } else {
        "live".to_owned()
    }
}

/// Plans the run of an agent. Without the script nothing is to be run, and
/// the plan is `NotFound` with the script's location.
pub fn execute_agent(script: &ScriptProbe, agent: AgentInvocation) -> (plan: Result<
    Invocation,
    GatewayError,
>)
    ensures
        result_view(plan) == execute_agent_plan(script@, agent@),
{
    if !script.present {
        return Err(GatewayError::NotFound { location: script.location.clone() });
    }
    let tools = join(&agent.tools, ",");
    let flag = deploy_mode(agent.sandbox);
    let ghost wanted = execute_agent_plan(script@, agent@)->Ok_0;
    let mut args: Vec<String> = Vec::new();
    args.push(script.location.clone());
    args.push(agent.agent_id);
    args.push(agent.agent_name);
    args.push(agent.role);
    args.push(agent.goal);
    args.push(tools);
    args.push(flag);
    assert(args.deep_view() =~= wanted.args);
    Ok(Invocation { program: "python".to_owned(), args })
}

/// Plans a post. Without the script nothing is to be run, and the plan is
/// `NotFound` with the script's location.
pub fn post_to_linkedin(script: &ScriptProbe, content: String, sandbox: bool) -> (plan: Result<
    Invocation,
    GatewayError,
>)
    ensures
        result_view(plan) == post_to_linkedin_plan(script@, content@, sandbox),
{
    if !script.present {
        return Err(GatewayError::NotFound { location: script.location.clone() });
    }
    let flag = deploy_mode(sandbox);
    let ghost wanted = post_to_linkedin_plan(script@, content@, sandbox)->Ok_0;
    let mut args: Vec<String> = Vec::new();
    args.push(script.location.clone());
    args.push("linkedin_post".to_owned());
    args.push(content);
    args.push(flag);
    assert(args.deep_view() =~= wanted.args);
    Ok(Invocation { program: "python".to_owned(), args })
}

/// Plans a scripted run. Without the script nothing is to be run, and the
/// plan is `NotFound` with the script's location.
pub fn run_python_agent(
    platform: Platform,
    script: &ScriptProbe,
    agent_id: String,
    sandbox: bool,
) -> (plan: Result<Invocation, GatewayError>)
    ensures
        result_view(plan) == run_python_agent_plan(platform, script@, agent_id@, sandbox),
{
    if !script.present {
        return Err(GatewayError::NotFound { location: script.location.clone() });
    }
    let flag = run_mode(sandbox);
    let ghost wanted = run_python_agent_plan(platform, script@, agent_id@, sandbox)->Ok_0;
    let mut args: Vec<String> = Vec::new();
    args.push(script.location.clone());
    args.push(agent_id);
    args.push(flag);
    assert(args.deep_view() =~= wanted.args);
    Ok(Invocation { program: platform.interpreter(), args })
}

} // verus!
