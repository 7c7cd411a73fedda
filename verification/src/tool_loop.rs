//! The simulated tool-calling loop as a state machine: the conversation
//! sent to the model and the number of rounds so far.  The caller asks the
//! model and runs tools; the loop decides, from each response, whether the
//! answer is final, which tool to run, or what to tell the model, and stops
//! after the configured number of rounds.
use vstd::prelude::*;
use crate::chat_context::{PromptMessage, prompt_views};
use crate::models::ChatRole;
use crate::text::to_owned_string;
use crate::tool_calls::{
    ParsedToolCall, SimulatedToolConfig, ToolCallOutcome, ToolExecutionResult, format_tool_result,
    malformed_feedback, malformed_feedback_text, output_outcome, parse_tool_call, tool_result_text,
};

verus! {

broadcast use vstd::string::group_string_axioms;

/// The state of a simulated tool-calling conversation.
pub struct SimulatedToolLoop {
    pub messages: Vec<PromptMessage>,
    pub iteration: usize,
    pub max_iterations: usize,
}

/// What a model response leads to.
pub enum RoundOutcome {
    /// The response is the final answer.
    Finished(String),
    /// The named tool is to run with these arguments; its result goes back
    /// through `record_tool_result`.
    ToolRequested { tool: String, arguments: String },
    /// The tool call was malformed; the model was told so.
    Reprompted,
}

impl SimulatedToolLoop {
    /// No more rounds than the configured maximum have run.
    pub open spec fn wf(&self) -> bool {
        self.iteration <= self.max_iterations
    }

    /// A loop over the initial messages, with no round run yet.
    pub fn new(initial: Vec<PromptMessage>, config: &SimulatedToolConfig) -> (r: Self)
        ensures
            r.wf(),
            r.iteration == 0,
            r.max_iterations == config.max_iterations,
            prompt_views(r.messages@) == prompt_views(initial@),
    {
        SimulatedToolLoop { messages: initial, iteration: 0, max_iterations: config.max_iterations }
    }

    /// Before asking the model: a cancelled request stops the loop, and so
    /// does reaching the maximum number of rounds; otherwise one more round
    /// is counted.
    pub fn begin_round(&mut self, cancelled: bool) -> (r: Result<(), String>)
        requires
            old(self).wf(),
        ensures
            final(self).wf(),
            final(self).max_iterations == old(self).max_iterations,
            final(self).messages@ == old(self).messages@,
            cancelled ==> (r matches Err(e) && e@ == "Cancelled"@) && final(self).iteration
                == old(self).iteration,
            !cancelled && old(self).iteration >= old(self).max_iterations ==> (r matches Err(e) && e@
                == "Max tool iterations reached"@) && final(self).iteration == old(self).iteration,
            !cancelled && old(self).iteration < old(self).max_iterations ==> r is Ok
                && final(self).iteration == old(self).iteration + 1,
    {
        if cancelled {
            return Err(to_owned_string("Cancelled"));
        }
        if self.iteration >= self.max_iterations {
            return Err(to_owned_string("Max tool iterations reached"));
        }
        self.iteration = self.iteration + 1;
        Ok(())
    }

    /// Takes the model's response: a final answer ends the loop; a tool call
    /// is recorded as the assistant's turn and handed out to run; a
    /// malformed call is recorded with feedback asking for the right format.
    pub fn handle_response(&mut self, content: &str) -> (r: RoundOutcome)
        requires
            old(self).wf(),
        ensures
            final(self).wf(),
            final(self).iteration == old(self).iteration,
            final(self).max_iterations == old(self).max_iterations,
            match output_outcome(content@) {
                ToolCallOutcome::Final => (r matches RoundOutcome::Finished(a) && a@ == content@)
                    && prompt_views(final(self).messages@) == prompt_views(old(self).messages@),
                ToolCallOutcome::Request(t, a) => (r matches RoundOutcome::ToolRequested {
                    tool,
                    arguments,
                } && tool@ == t && arguments@ == a) && prompt_views(final(self).messages@) == prompt_views(
                    old(self).messages@,
                ).push((ChatRole::Assistant, content@)),
                ToolCallOutcome::Malformed(_, e) => r is Reprompted && prompt_views(
                    final(self).messages@,
                ) == prompt_views(old(self).messages@).push((ChatRole::Assistant, content@)).push(
                    (ChatRole::User, malformed_feedback_text(e)),
                ),
            },
    {
        let ghost before = self.messages@;
        match parse_tool_call(content) {
            ParsedToolCall::FinalAnswer(answer) => RoundOutcome::Finished(answer),
            ParsedToolCall::ToolRequest { tool, arguments } => {
                self.messages.push(
                    PromptMessage { role: ChatRole::Assistant, content: to_owned_string(content) },
                );
                proof {
                    assert(prompt_views(self.messages@) =~= prompt_views(before).push(
                        (ChatRole::Assistant, content@),
                    ));
                }
                RoundOutcome::ToolRequested { tool, arguments }
            },
            ParsedToolCall::MalformedToolCall { raw, error } => {
                self.messages.push(
                    PromptMessage { role: ChatRole::Assistant, content: to_owned_string(content) },
                );
                let feedback = malformed_feedback(error.as_str());
                let ghost mid = self.messages@;
                self.messages.push(PromptMessage { role: ChatRole::User, content: feedback });
                proof {
                    assert(prompt_views(mid) =~= prompt_views(before).push(
                        (ChatRole::Assistant, content@),
                    ));
                    assert(prompt_views(self.messages@) =~= prompt_views(mid).push(
                        (ChatRole::User, malformed_feedback_text(error@)),
                    ));
                }
                RoundOutcome::Reprompted
            },
        }
    }

    /// Feeds a tool's result back to the model as the user's turn.
    pub fn record_tool_result(&mut self, tool: &str, result: &ToolExecutionResult)
        requires
            old(self).wf(),
        ensures
            final(self).wf(),
            final(self).iteration == old(self).iteration,
            final(self).max_iterations == old(self).max_iterations,
            prompt_views(final(self).messages@) == prompt_views(old(self).messages@).push(
                (ChatRole::User, tool_result_text(tool@, result.content@, !result.success)),
            ),
    {
        let ghost before = self.messages@;
        let text = format_tool_result(tool, result.content.as_str(), !result.success);
        self.messages.push(PromptMessage { role: ChatRole::User, content: text });
        proof {
            assert(prompt_views(self.messages@) =~= prompt_views(before).push(
                (ChatRole::User, tool_result_text(tool@, result.content@, !result.success)),
            ));
        }
    }
}

} // verus!
