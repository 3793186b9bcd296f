//! What a self-service flow yields.
use vstd::prelude::*;
use crate::domain::value_objects::flow_id::FlowId;
use crate::json::{Json, JsonValue};
use crate::infrastructure::adapters::kratos::models::errors::KratosFlowError;

verus! {

/// An open flow: its id, its CSRF token and the cookies that go with it.
#[derive(Debug)]
pub struct FlowResult {
    pub flow_id: FlowId,
    pub csrf_token: String,
    pub cookies: Vec<String>,
}

/// The answer to a submitted flow: its JSON body and the cookies it set.
#[derive(Debug)]
pub struct PostFlowResult {
    pub data: Json,
    pub cookies: Vec<String>,
}

pub struct FlowResultView {
    pub flow_id: Seq<char>,
    pub csrf_token: Seq<char>,
    pub cookies: Seq<Seq<char>>,
}

pub struct PostFlowResultView {
    pub data: JsonValue,
    pub cookies: Seq<Seq<char>>,
}

/// The value of a [`KratosFlowError`].
pub struct FlowErrorView {
    pub status: u16,
    pub body: JsonValue,
}

impl View for FlowResult {
    type V = FlowResultView;

    open spec fn view(&self) -> FlowResultView {
        FlowResultView {
            flow_id: self.flow_id@,
            csrf_token: self.csrf_token@,
            cookies: self.cookies.deep_view(),
        }
    }
}

impl View for PostFlowResult {
    type V = PostFlowResultView;

    open spec fn view(&self) -> PostFlowResultView {
        PostFlowResultView { data: self.data@, cookies: self.cookies.deep_view() }
    }
}

impl View for KratosFlowError {
    type V = FlowErrorView;

    open spec fn view(&self) -> FlowErrorView {
        FlowErrorView { status: self.status, body: self.body@ }
    }
}

/// The value of the outcome of fetching a flow.
pub open spec fn flow_outcome_view(r: Result<FlowResult, KratosFlowError>) -> Result<FlowResultView, FlowErrorView> {
    match r {
        Ok(f) => Ok(f@),
        Err(e) => Err(e@),
    }
}

/// The value of the outcome of submitting a flow.
pub open spec fn post_outcome_view(r: Result<PostFlowResult, KratosFlowError>) -> Result<PostFlowResultView, FlowErrorView> {
    match r {
        Ok(f) => Ok(f@),
        Err(e) => Err(e@),
    }
}

} // verus!
