//! What a session is configured with: the generation providers and the
//! messages that make up a rewrite's chat.

use vstd::prelude::*;

verus! {

/// A setting that a provider does not take.
#[derive(Clone, Copy, PartialEq, Eq, Structural, Debug)]
pub struct Empty;

/// The Mistral provider.
#[derive(Clone, Copy, PartialEq, Eq, Structural, Debug)]
pub struct Mistral;

/// The llama.cpp server provider.
#[derive(Clone, Copy, PartialEq, Eq, Structural, Debug)]
pub struct LlamaCpp;

/// The Ollama provider.
#[derive(Clone, Copy, PartialEq, Eq, Structural, Debug)]
pub struct Ollama;

/// Providers that speak the OpenAI API.
#[derive(Clone, Copy, PartialEq, Eq, Structural, Debug)]
pub struct OpenAI;

/// One message of a rewrite's chat: a role, and a template for its content.
#[derive(Clone, PartialEq, Debug)]
pub struct MessageConfig {
    pub role: String,
    pub content: String,
}

/// A llama.cpp fill-in-the-middle endpoint and its stop sequences.
#[derive(Debug, Clone, PartialEq)]
pub struct LlamaCppFim {
    pub url: String,
    pub stop: Vec<String>,
}

/// The chat for a rewrite: each configured message's role with its rendered
/// content, in order. Entries past the shorter of the two lists are left out.
pub fn chat_messages(messages: &Vec<MessageConfig>, contents: &Vec<String>) -> (r: Vec<(String, String)>)
    ensures
        r@.len() == if messages@.len() <= contents@.len() {
            messages@.len()
        } else {
            contents@.len()
        },
        forall|i: int|
            0 <= i < r@.len() ==> (#[trigger] r@[i]).0@ == messages@[i].role@ && r@[i].1@
                == contents@[i]@,
{
    let n = if messages.len() <= contents.len() {
        messages.len()
    } else {
        contents.len()
    };
    let mut r: Vec<(String, String)> = Vec::new();
    let mut i: usize = 0;
    while i < n
        invariant
            i <= n,
            n <= messages@.len(),
            n <= contents@.len(),
            r@.len() == i,
            forall|j: int|
                0 <= j < i ==> (#[trigger] r@[j]).0@ == messages@[j].role@ && r@[j].1@
                    == contents@[j]@,
        decreases n - i,
    {
        r.push((messages[i].role.clone(), contents[i].clone()));
        i = i + 1;
    }
    r
}

} // verus!
