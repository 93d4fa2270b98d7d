//! The tools that go with a request.
use vstd::prelude::*;

use crate::chat;
use crate::chat::{Tool, ToolChoice};
use crate::json;
use crate::openai::{copy_text, OpenAI};
use crate::request::{
    ApproximateLocation, ApproximateLocationView, OpenAITool, OpenAIToolView, UserLocation,
    UserLocationView,
};
use crate::text;
use crate::text::{or_empty, same_text};

verus! {

/// A tool in the form of the Chat Completions API.
pub open spec fn function_tool(tool: Tool) -> OpenAIToolView {
    OpenAIToolView::Function { tool_type: tool.tool_type@, function: tool.function.deep_view() }
}

/// A tool in the form of the Responses API, whose name, description and
/// parameters stand side by side. Its type is always `function`.
pub open spec fn responses_function_tool(tool: Tool) -> OpenAIToolView {
    OpenAIToolView::ResponsesFunction {
        tool_type: "function"@,
        name: tool.function.name@,
        description: tool.function.description@,
        parameters: tool.function.parameters,
    }
}

/// The given tools, and no tools where none are given.
pub open spec fn given_tools(tools: Option<&[Tool]>) -> Seq<Tool> {
    match tools {
        Some(tools) => tools@,
        None => Seq::empty(),
    }
}

/// The tools in the form of the Chat Completions API, if there are any.
pub open spec fn function_tools(tools: Option<&[Tool]>) -> Option<Seq<OpenAIToolView>> {
    chat::none_if_empty(given_tools(tools).map_values(|tool: Tool| function_tool(tool)))
}

/// The tools in the form of the Responses API, if there are any.
pub open spec fn responses_function_tools(tools: Option<&[Tool]>) -> Option<Seq<OpenAIToolView>> {
    chat::none_if_empty(given_tools(tools).map_values(|tool: Tool| responses_function_tool(tool)))
}

impl OpenAI {
    /// The choice of a tool that goes with the tools: none where there are no
    /// tools to choose from.
    pub open spec fn tool_choice_for(&self, tools: Option<Seq<OpenAIToolView>>) -> Option<
        ToolChoice,
    > {
        match tools {
            Some(_) => self.provider.tool_choice,
            None => None,
        }
    }

    /// The approximate place of the user, where any part of it is known; an
    /// unknown part is empty.
    pub open spec fn approximate_location(&self) -> Option<ApproximateLocationView> {
        if self.web_search_user_location_approximate_country is Some
            || self.web_search_user_location_approximate_city is Some
            || self.web_search_user_location_approximate_region is Some {
            Some(
                ApproximateLocationView {
                    country: text::text_or_empty(
                        self.web_search_user_location_approximate_country,
                    ),
                    city: text::text_or_empty(
                        self.web_search_user_location_approximate_city,
                    ),
                    region: text::text_or_empty(
                        self.web_search_user_location_approximate_region,
                    ),
                },
            )
        } else {
            None
        }
    }

    /// The web search tool. It says where the user is only where the type of the
    /// location is `exact` or `approximate`.
    pub open spec fn web_search_tool(&self) -> OpenAIToolView {
        OpenAIToolView::WebSearch {
            tool_type: "web_search_preview"@,
            user_location: match self.web_search_user_location_type {
                Some(location_type) => if location_type@ == "exact"@ || location_type@
                    == "approximate"@ {
                    Some(
                        UserLocationView {
                            location_type: location_type@,
                            approximate: self.approximate_location(),
                        },
                    )
                } else {
                    None
                },
                None => None,
            },
        }
    }

    /// The tools in the form of the Chat Completions API, if there are any.
    pub fn build_function_tools(&self, tools: Option<&[Tool]>) -> (r: Option<Vec<OpenAITool>>)
        ensures
            r.deep_view() == function_tools(tools),
    {
        let mut built: Vec<OpenAITool> = Vec::new();
        let ghost all = given_tools(tools).map_values(|tool: Tool| function_tool(tool));
        assert(all.take(0) =~= Seq::<OpenAIToolView>::empty());
        if let Some(given) = tools {
            for i in 0..given.len()
                invariant
                    all == given@.map_values(|tool: Tool| function_tool(tool)),
                    built.deep_view() =~= all.take(i as int),
            {
                let tool = &given[i];
                let ghost so_far = built.deep_view();
                built.push(
                    OpenAITool::Function {
                        tool_type: tool.tool_type.clone(),
                        function: tool.function.clone(),
                    },
                );
                assert(built.deep_view() =~= so_far.push(function_tool(*tool)));
            }
            assert(all.take(given@.len() as int) =~= all);
        }
        assert(built.deep_view() =~= all);
        if built.len() == 0 {
            None
        } else {
            Some(built)
        }
    }

    /// The tools in the form of the Responses API, if there are any.
    pub fn build_responses_function_tools(&self, tools: Option<&[Tool]>) -> (r: Option<
        Vec<OpenAITool>,
    >)
        ensures
            r.deep_view() == responses_function_tools(tools),
    {
        let mut built: Vec<OpenAITool> = Vec::new();
        let ghost all = given_tools(tools).map_values(|tool: Tool| responses_function_tool(tool));
        assert(all.take(0) =~= Seq::<OpenAIToolView>::empty());
        if let Some(given) = tools {
            for i in 0..given.len()
                invariant
                    all == given@.map_values(|tool: Tool| responses_function_tool(tool)),
                    built.deep_view() =~= all.take(i as int),
            {
                let tool = &given[i];
                let ghost so_far = built.deep_view();
                built.push(
                    OpenAITool::ResponsesFunction {
                        tool_type: "function".to_string(),
                        name: tool.function.name.clone(),
                        description: tool.function.description.clone(),
                        parameters: json::copy_value(&tool.function.parameters),
                    },
                );
                assert(built.deep_view() =~= so_far.push(responses_function_tool(*tool)));
            }
            assert(all.take(given@.len() as int) =~= all);
        }
        assert(built.deep_view() =~= all);
        if built.len() == 0 {
            None
        } else {
            Some(built)
        }
    }

    /// The choice of a tool that goes with the tools: none where there are no
    /// tools to choose from.
    pub fn resolve_tool_choice_for_request(&self, tools: &Option<Vec<OpenAITool>>) -> (r: Option<
        ToolChoice,
    >)
        ensures
            r == self.tool_choice_for(tools.deep_view()),
    {
        if tools.is_some() {
            self.copied_tool_choice()
        } else {
            None
        }
    }

    /// The choice of a tool that the client is set to.
    pub(crate) fn copied_tool_choice(&self) -> (r: Option<ToolChoice>)
        ensures
            r == self.provider.tool_choice,
    {
        match &self.provider.tool_choice {
            Some(choice) => Some(choice.clone()),
            None => None,
        }
    }

    /// The web search tool.
    pub fn build_web_search_tool(&self) -> (r: OpenAITool)
        ensures
            r.deep_view() == self.web_search_tool(),
    {
        let country = &self.web_search_user_location_approximate_country;
        let city = &self.web_search_user_location_approximate_city;
        let region = &self.web_search_user_location_approximate_region;
        let approximate = if country.is_some() || city.is_some() || region.is_some() {
            Some(
                ApproximateLocation {
                    country: or_empty(country),
                    city: or_empty(city),
                    region: or_empty(region),
                },
            )
        } else {
            None
        };
        let user_location = match copy_text(&self.web_search_user_location_type) {
            Some(location_type) => if same_text(location_type.as_str(), "exact") || same_text(
                location_type.as_str(),
                "approximate",
            ) {
                Some(UserLocation { location_type, approximate })
            } else {
                None
            },
            None => None,
        };
        OpenAITool::WebSearch { tool_type: "web_search_preview".to_string(), user_location }
    }
}

/// Both forms of a request offer the same tools in the same order, and a request
/// offers tools exactly where some are given.
pub proof fn law_each_tool_is_offered(tools: Option<&[Tool]>)
    ensures
        function_tools(tools) is None <==> given_tools(tools).len() == 0,
        responses_function_tools(tools) is None <==> given_tools(tools).len() == 0,
        given_tools(tools).len() > 0 ==> {
            &&& function_tools(tools)->0.len() == given_tools(tools).len()
            &&& responses_function_tools(tools)->0.len() == given_tools(tools).len()
        },
        forall|i: int| #![trigger given_tools(tools)[i]]
            0 <= i < given_tools(tools).len() ==> {
                let tool = given_tools(tools)[i];
                &&& function_tools(tools)->0[i] == function_tool(tool)
                &&& responses_function_tools(tools)->0[i] == responses_function_tool(tool)
            },
{
}

} // verus!
