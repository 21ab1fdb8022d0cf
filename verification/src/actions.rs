//! Suggestions of what to run next, and the output that carries them.

use crate::json::{JsonModel, JsonValue};
use crate::text::texts_model;
use vstd::prelude::*;
use vstd::string::*;

verus! {

/// What a caller needs to know to fill one parameter of a suggested command.
#[derive(Debug, PartialEq, Eq)]
pub struct ActionParam {
    pub description: Option<String>,
    pub required: Option<bool>,
    pub enum_values: Option<Vec<String>>,
}

/// A command that can be run next: the command line, why one would run it,
/// and the parameters that the caller has to add, in the order in which they
/// were declared.
#[derive(Debug, PartialEq, Eq)]
pub struct NextAction {
    pub command: String,
    pub description: String,
    pub params: Vec<(String, ActionParam)>,
}

/// What an `ActionParam` is, as mathematics.
pub struct ActionParamModel {
    pub description: Option<Seq<char>>,
    pub required: Option<bool>,
    pub enum_values: Option<Seq<Seq<char>>>,
}

/// What a `NextAction` is, as mathematics.
pub struct ActionModel {
    pub command: Seq<char>,
    pub description: Seq<char>,
    pub params: Seq<(Seq<char>, ActionParamModel)>,
}

impl View for ActionParam {
    type V = ActionParamModel;

    open spec fn view(&self) -> ActionParamModel {
        ActionParamModel {
            description: match self.description {
                Some(d) => Some(d@),
                None => None,
            },
            required: self.required,
            enum_values: match self.enum_values {
                Some(values) => Some(texts_model(values@)),
                None => None,
            },
        }
    }
}

/// The models of the parameters of an action.
pub open spec fn action_params_model(params: Seq<(String, ActionParam)>) -> Seq<
    (Seq<char>, ActionParamModel),
> {
    Seq::new(params.len(), |i: int| (params[i].0@, params[i].1@))
}

impl View for NextAction {
    type V = ActionModel;

    open spec fn view(&self) -> ActionModel {
        ActionModel {
            command: self.command@,
            description: self.description@,
            params: action_params_model(self.params@),
        }
    }
}

/// The models of a sequence of actions.
pub open spec fn actions_model(actions: Seq<NextAction>) -> Seq<ActionModel> {
    Seq::new(actions.len(), |i: int| actions[i]@)
}

/// An action that runs as it is written.
pub open spec fn literal_action(command: Seq<char>, description: Seq<char>) -> ActionModel {
    ActionModel { command, description, params: Seq::empty() }
}

/// A parameter that must be given, with a description.
pub open spec fn required_param(description: Seq<char>) -> ActionParamModel {
    ActionParamModel { description: Some(description), required: Some(true), enum_values: None }
}

/// A parameter that must be given, without a description.
pub open spec fn required_bare_param() -> ActionParamModel {
    ActionParamModel { description: None, required: Some(true), enum_values: None }
}

/// A parameter that must be given and takes one of the listed values.
pub open spec fn required_choice_param(
    description: Seq<char>,
    choices: Seq<Seq<char>>,
) -> ActionParamModel {
    ActionParamModel {
        description: Some(description),
        required: Some(true),
        enum_values: Some(choices),
    }
}

impl ActionParam {
    /// A parameter that must be given, with a description.
    pub fn required(description: &str) -> (param: ActionParam)
        ensures
            param@ == required_param(description@),
    {
        ActionParam {
            description: Some(String::from_str(description)),
            required: Some(true),
            enum_values: None,
        }
    }

    /// A parameter that must be given, without a description.
    pub fn required_bare() -> (param: ActionParam)
        ensures
            param@ == required_bare_param(),
    {
        ActionParam { description: None, required: Some(true), enum_values: None }
    }

    /// A parameter that must be given and takes one of the listed values.
    pub fn required_choice(description: &str, choices: Vec<String>) -> (param: ActionParam)
        ensures
            param@ == required_choice_param(description@, texts_model(choices@)),
    {
        ActionParam {
            description: Some(String::from_str(description)),
            required: Some(true),
            enum_values: Some(choices),
        }
    }
}

impl NextAction {
    /// An action that runs as it is written.
    pub fn new(command: String, description: String) -> (action: NextAction)
        ensures
            action@ == literal_action(command@, description@),
    {
        let params: Vec<(String, ActionParam)> = Vec::new();
        assert(action_params_model(params@) =~= Seq::empty());
        NextAction { command, description, params }
    }

    /// An action that runs as it is written, from two fixed texts.
    pub fn fixed(command: &str, description: &str) -> (action: NextAction)
        ensures
            action@ == literal_action(command@, description@),
    {
        NextAction::new(String::from_str(command), String::from_str(description))
    }

    /// The same action with one more parameter for the caller to fill.
    pub fn with_param(self, name: &str, param: ActionParam) -> (action: NextAction)
        ensures
            action@ == (ActionModel { params: self@.params.push((name@, param@)), ..self@ }),
    {
        let NextAction { command, description, params } = self;
        let mut params = params;
        let ghost before = action_params_model(params@);
        params.push((String::from_str(name), param));
        assert(action_params_model(params@) =~= before.push((name@, param@)));
        NextAction { command, description, params }
    }
}

/// What a command hands back when it succeeds: its data, and the actions it
/// suggests.
#[derive(Debug, PartialEq)]
pub struct CommandOutput {
    pub data: JsonValue,
    pub next_actions: Vec<NextAction>,
}

/// What a `CommandOutput` is, as mathematics.
pub struct OutputModel {
    pub data: JsonModel,
    pub next_actions: Seq<ActionModel>,
}

impl View for CommandOutput {
    type V = OutputModel;

    open spec fn view(&self) -> OutputModel {
        OutputModel { data: self.data@, next_actions: actions_model(self.next_actions@) }
    }
}

} // verus!
