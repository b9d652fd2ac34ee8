//! Input validation of API requests before they are sent.

use vstd::prelude::*;
use vstd::string::*;
use crate::text::{blank, has_char, decimal, signed_decimal, owned, concat2, concat3, concat5, is_blank, contains_char, u64_to_decimal, i64_to_decimal, only_ident_chars, all_ident_chars, char_is_alphanumeric};
use crate::types::{Part, Content, CountTokensRequest, AnalyzeTokensRequest, BatchCountTokensRequest, FunctionCallingConfig, ToolConfig, CodeExecutionConfig, CodeExecutionTool, SystemInstruction, Dataset, TuningExample, ListTunedModelsRequest};

verus! {

/// Maximum number of requests in a batch token counting operation.
pub const MAX_BATCH_TOKEN_REQUESTS: usize = 100;

/// Maximum number of allowed function names in a function calling config.
pub const MAX_ALLOWED_FUNCTION_NAMES: usize = 100;

/// Maximum number of tuning examples in a training dataset.
pub const MAX_TUNING_EXAMPLES: usize = 10000;

/// Maximum timeout for code execution, in seconds.
pub const MAX_CODE_EXECUTION_TIMEOUT: i32 = 300;

/// Validation errors. Range bounds and values are whole numbers: every range
/// check of this module is on an integer field.
#[derive(Debug, Clone)]
pub enum ValidationError {
    /// A required field is missing or empty.
    RequiredFieldMissing {
        /// Name of the field.
        field: String,
        /// Where the check happened.
        context: String,
    },
    /// A field holds an invalid value.
    InvalidFieldValue {
        /// Name of the field.
        field: String,
        /// The rejected value.
        value: String,
        /// Why it was rejected.
        reason: String,
    },
    /// A value lies outside its accepted range.
    ValueOutOfRange {
        /// Name of the field.
        field: String,
        /// The rejected value.
        value: i64,
        /// Smallest accepted value.
        min: Option<i64>,
        /// Largest accepted value.
        max: Option<i64>,
    },
    /// A collection is empty where items are required.
    EmptyCollection {
        /// Name of the collection.
        field: String,
        /// Where the check happened.
        context: String,
    },
    /// A collection holds too many items.
    CollectionTooLarge {
        /// Name of the collection.
        field: String,
        /// Its size.
        size: usize,
        /// The largest accepted size.
        max: usize,
    },
}

/// A validation error with its texts as character sequences.
pub enum ValidationErrorView {
    /// See [`ValidationError::RequiredFieldMissing`].
    RequiredFieldMissing { field: Seq<char>, context: Seq<char> },
    /// See [`ValidationError::InvalidFieldValue`].
    InvalidFieldValue { field: Seq<char>, value: Seq<char>, reason: Seq<char> },
    /// See [`ValidationError::ValueOutOfRange`].
    ValueOutOfRange { field: Seq<char>, value: int, min: Option<int>, max: Option<int> },
    /// See [`ValidationError::EmptyCollection`].
    EmptyCollection { field: Seq<char>, context: Seq<char> },
    /// See [`ValidationError::CollectionTooLarge`].
    CollectionTooLarge { field: Seq<char>, size: int, max: int },
}

/// An optional whole number as a mathematical integer.
pub open spec fn opt_int(o: Option<i64>) -> Option<int> {
    match o {
        Some(v) => Some(v as int),
        None => None,
    }
}

impl View for ValidationError {
    type V = ValidationErrorView;

    open spec fn view(&self) -> ValidationErrorView {
        match self {
            ValidationError::RequiredFieldMissing { field, context } =>
                ValidationErrorView::RequiredFieldMissing { field: field@, context: context@ },
            ValidationError::InvalidFieldValue { field, value, reason } =>
                ValidationErrorView::InvalidFieldValue { field: field@, value: value@, reason: reason@ },
            ValidationError::ValueOutOfRange { field, value, min, max } =>
                ValidationErrorView::ValueOutOfRange { field: field@, value: *value as int, min: opt_int(*min), max: opt_int(*max) },
            ValidationError::EmptyCollection { field, context } =>
                ValidationErrorView::EmptyCollection { field: field@, context: context@ },
            ValidationError::CollectionTooLarge { field, size, max } =>
                ValidationErrorView::CollectionTooLarge { field: field@, size: *size as int, max: *max as int },
        }
    }
}

/// The description of an accepted range.
pub open spec fn range_text(min: Option<int>, max: Option<int>) -> Seq<char> {
    match (min, max) {
        (Some(a), Some(b)) => "between "@ + signed_decimal(a) + " and "@ + signed_decimal(b),
        (Some(a), None) => "at least "@ + signed_decimal(a),
        (None, Some(b)) => "at most "@ + signed_decimal(b),
        (None, None) => "within valid range"@,
    }
}

/// The human-readable message of a validation error.
pub open spec fn validation_message(e: ValidationErrorView) -> Seq<char> {
    match e {
        ValidationErrorView::RequiredFieldMissing { field, context } =>
            "Required field '"@ + field + "' is missing or empty in "@ + context,
        ValidationErrorView::InvalidFieldValue { field, value, reason } =>
            "Invalid value '"@ + value + "' for field '"@ + field + "': "@ + reason,
        ValidationErrorView::ValueOutOfRange { field, value, min, max } =>
            "Value "@ + signed_decimal(value) + " for field '"@ + field + "' is not "@ + range_text(min, max),
        ValidationErrorView::EmptyCollection { field, context } =>
            "Collection '"@ + field + "' cannot be empty in "@ + context,
        ValidationErrorView::CollectionTooLarge { field, size, max } =>
            "Collection '"@ + field + "' has "@ + decimal(size as nat) + " items, exceeding maximum of "@ + decimal(max as nat),
    }
}

fn opt_decimal(v: i64) -> (r: String)
    ensures
        r@ == signed_decimal(v as int),
{
    i64_to_decimal(v)
}

impl ValidationError {
    /// The human-readable message of the error, as its `Display` prints it.
    pub fn message(&self) -> (r: String)
        ensures
            r@ == validation_message(self@),
    {
        proof {
            reveal_strlit("Required field '");
            reveal_strlit("' is missing or empty in ");
            reveal_strlit("Invalid value '");
            reveal_strlit("' for field '");
            reveal_strlit("': ");
            reveal_strlit("Value ");
            reveal_strlit("' is not ");
            reveal_strlit("between ");
            reveal_strlit(" and ");
            reveal_strlit("at least ");
            reveal_strlit("at most ");
            reveal_strlit("within valid range");
            reveal_strlit("Collection '");
            reveal_strlit("' cannot be empty in ");
            reveal_strlit("' has ");
            reveal_strlit(" items, exceeding maximum of ");
        }
        match self {
            ValidationError::RequiredFieldMissing { field, context } =>
                concat3("Required field '", field.as_str(), "' is missing or empty in ").concat(context.as_str()),
            ValidationError::InvalidFieldValue { field, value, reason } => {
                let s = concat5("Invalid value '", value.as_str(), "' for field '", field.as_str(), "': ");
                s.concat(reason.as_str())
            },
            ValidationError::ValueOutOfRange { field, value, min, max } => {
                let v = opt_decimal(*value);
                let s = concat5("Value ", v.as_str(), " for field '", field.as_str(), "' is not ");
                let range = match (min, max) {
                    (Some(a), Some(b)) => {
                        let sa = opt_decimal(*a);
                        let sb = opt_decimal(*b);
                        concat3("between ", sa.as_str(), " and ").concat(sb.as_str())
                    },
                    (Some(a), None) => {
                        let sa = opt_decimal(*a);
                        concat2("at least ", sa.as_str())
                    },
                    (None, Some(b)) => {
                        let sb = opt_decimal(*b);
                        concat2("at most ", sb.as_str())
                    },
                    (None, None) => owned("within valid range"),
                };
                s.concat(range.as_str())
            },
            ValidationError::EmptyCollection { field, context } =>
                concat3("Collection '", field.as_str(), "' cannot be empty in ").concat(context.as_str()),
            ValidationError::CollectionTooLarge { field, size, max } => {
                let ss = u64_to_decimal(*size as u64);
                let sm = u64_to_decimal(*max as u64);
                let s = concat5("Collection '", field.as_str(), "' has ", ss.as_str(), " items, exceeding maximum of ");
                s.concat(sm.as_str())
            },
        }
    }
}

/// The field name `name[i]`.
pub open spec fn indexed(name: Seq<char>, i: int) -> Seq<char> {
    name + "["@ + decimal(i as nat) + "]"@
}

fn indexed_name(name: &str, i: usize) -> (r: String)
    ensures
        r@ == indexed(name@, i as int),
{
    proof {
        reveal_strlit("[");
        reveal_strlit("]");
    }
    let d = u64_to_decimal(i as u64);
    concat3(name, "[", d.as_str()).concat("]")
}

/// The error that wraps a nested failure of an item or sub-structure.
pub open spec fn wrapped(field: Seq<char>, value: Seq<char>, inner: ValidationErrorView) -> ValidationErrorView {
    ValidationErrorView::InvalidFieldValue { field, value, reason: validation_message(inner) }
}

fn wrap(field: String, value: &str, inner: &ValidationError) -> (r: ValidationError)
    ensures
        r@ == wrapped(field@, value@, inner@),
{
    ValidationError::InvalidFieldValue { field, value: owned(value), reason: inner.message() }
}

fn required(field: &str, context: &str) -> (r: ValidationError)
    ensures
        r@ == (ValidationErrorView::RequiredFieldMissing { field: field@, context: context@ }),
{
    ValidationError::RequiredFieldMissing { field: owned(field), context: owned(context) }
}

fn empty_collection(field: &str, context: &str) -> (r: ValidationError)
    ensures
        r@ == (ValidationErrorView::EmptyCollection { field: field@, context: context@ }),
{
    ValidationError::EmptyCollection { field: owned(field), context: owned(context) }
}

/// Whether an optional text holds something other than white space.
pub open spec fn has_content(t: Option<String>) -> bool {
    t matches Some(s) && !blank(s@)
}

fn has_content_exec(t: &Option<String>) -> (r: bool)
    ensures
        r == has_content(*t),
{
    match t {
        Some(s) => !is_blank(s.as_str()),
        None => false,
    }
}

/// The outcome of validating a model name.
pub open spec fn model_name_check(name: Seq<char>) -> Option<ValidationErrorView> {
    if blank(name) {
        Some(ValidationErrorView::RequiredFieldMissing { field: "model_name"@, context: "model validation"@ })
    } else if has_char(name, '\n') || has_char(name, '\r') || has_char(name, '\0') {
        Some(ValidationErrorView::InvalidFieldValue {
            field: "model_name"@,
            value: name,
            reason: "Model name contains invalid characters (newlines or null bytes)"@,
        })
    } else {
        None
    }
}

/// A model name is accepted exactly when it is not blank and holds no line
/// feed, carriage return or NUL character; a blank name is reported as a
/// missing `model_name`.
pub proof fn law_model_name_rules(name: Seq<char>)
    ensures
        model_name_check(name) is None <==> (!blank(name) && !has_char(name, '\n') && !has_char(name, '\r')
            && !has_char(name, '\0')),
        blank(name) ==> model_name_check(name) == Some(
            ValidationErrorView::RequiredFieldMissing { field: "model_name"@, context: "model validation"@ }),
{
}

/// A tuned-model identifier is accepted exactly when it is not blank and
/// holds only alphanumeric characters, hyphens and underscores.
pub proof fn law_tuned_model_id_rules(id: Seq<char>)
    ensures
        tuned_model_id_check(id) is None <==> (!blank(id) && forall|i: int| 0 <= i < id.len()
            ==> (char_is_alphanumeric(#[trigger] id[i]) || id[i] == '-' || id[i] == '_')),
{
    reveal_strlit("-_");
    assert forall|i: int| 0 <= i < id.len() implies ("-_"@.contains(#[trigger] id[i]) <==> (id[i] == '-' || id[i] == '_')) by {
        if id[i] == '-' {
            assert("-_"@[0] == '-');
        }
        if id[i] == '_' {
            assert("-_"@[1] == '_');
        }
    }
}

/// A whole-number setting is accepted exactly when it lies from `min` up to
/// `max`, when there is a maximum; otherwise it is reported out of range
/// with its value and bounds.
pub proof fn law_whole_range_rules(field: Seq<char>, value: int, min: int, max: Option<int>)
    ensures
        whole_range_check(field, value, min, max) is None <==> (min <= value && (max matches Some(m) ==> value <= m)),
        whole_range_check(field, value, min, max) matches Some(e)
            ==> e == (ValidationErrorView::ValueOutOfRange { field, value, min: Some(min), max }),
{
}

/// Whether a validation outcome agrees with an expected failure, if any.
pub open spec fn outcome_is(r: Result<(), ValidationError>, expected: Option<ValidationErrorView>) -> bool {
    match expected {
        None => r is Ok,
        Some(e) => r matches Err(x) && x@ == e,
    }
}

/// Validates a model name: it must not be blank nor hold line breaks or NUL.
pub fn validate_model_name(model_name: &str) -> (r: Result<(), ValidationError>)
    ensures
        outcome_is(r, model_name_check(model_name@)),
{
    proof {
        reveal_strlit("model_name");
        reveal_strlit("model validation");
        reveal_strlit("Model name contains invalid characters (newlines or null bytes)");
    }
    if is_blank(model_name) {
        return Err(required("model_name", "model validation"));
    }
    if contains_char(model_name, '\n') || contains_char(model_name, '\r') || contains_char(model_name, '\0') {
        return Err(ValidationError::InvalidFieldValue {
            field: owned("model_name"),
            value: owned(model_name),
            reason: owned("Model name contains invalid characters (newlines or null bytes)"),
        });
    }
    Ok(())
}

/// The outcome of validating a content part: it must carry text, inline
/// data, a function call or a function response.
pub open spec fn part_check(p: Part) -> Option<ValidationErrorView> {
    if !has_content(p.text) && p.inline_data is None && p.function_call is None && p.function_response is None {
        Some(ValidationErrorView::RequiredFieldMissing {
            field: "content"@,
            context: "Part must have at least one content type (text, inline_data, function_call, or function_response)"@,
        })
    } else {
        None
    }
}

/// Validates a content part.
pub fn validate_part(part: &Part) -> (r: Result<(), ValidationError>)
    ensures
        outcome_is(r, part_check(*part)),
{
    let has_text = has_content_exec(&part.text);
    let has_inline_data = part.inline_data.is_some();
    let has_function_call = part.function_call.is_some();
    let has_function_response = part.function_response.is_some();
    if !has_text && !has_inline_data && !has_function_call && !has_function_response {
        proof {
            reveal_strlit("content");
            reveal_strlit("Part must have at least one content type (text, inline_data, function_call, or function_response)");
        }
        return Err(required(
            "content",
            "Part must have at least one content type (text, inline_data, function_call, or function_response)",
        ));
    }
    Ok(())
}

/// The outcome of validating a list of parts item by item: the first
/// failing part, if any, wrapped with its index.
pub open spec fn parts_check(parts: Seq<Part>) -> Option<ValidationErrorView> {
    if exists|i: int| 0 <= i < parts.len() && part_check(parts[i]) is Some {
        let i = choose|i: int| 0 <= i < parts.len() && part_check(parts[i]) is Some
            && forall|j: int| 0 <= j < i ==> part_check(#[trigger] parts[j]) is None;
        Some(wrapped(indexed("parts"@, i), "Part"@, part_check(parts[i]).unwrap()))
    } else {
        None
    }
}

proof fn lemma_first_failure_parts(parts: Seq<Part>, i: int)
    requires
        0 <= i < parts.len(),
        part_check(parts[i]) is Some,
        forall|j: int| 0 <= j < i ==> part_check(#[trigger] parts[j]) is None,
    ensures
        parts_check(parts) == Some(wrapped(indexed("parts"@, i), "Part"@, part_check(parts[i]).unwrap())),
{
    let k = choose|k: int| 0 <= k < parts.len() && part_check(parts[k]) is Some
        && forall|j: int| 0 <= j < k ==> part_check(#[trigger] parts[j]) is None;
    assert(0 <= k < parts.len() && part_check(parts[k]) is Some
        && forall|j: int| 0 <= j < k ==> part_check(#[trigger] parts[j]) is None);
    if k < i {
        assert(part_check(parts[k]) is None);
    } else if k > i {
        assert(part_check(parts[i]) is None);
    }
}

fn check_parts(parts: &Vec<Part>) -> (r: Result<(), ValidationError>)
    ensures
        outcome_is(r, parts_check(parts@)),
{
    proof { reveal_strlit("parts"); reveal_strlit("Part"); }
    let mut i: usize = 0;
    while i < parts.len()
        invariant
            i <= parts@.len(),
            forall|j: int| 0 <= j < i ==> part_check(#[trigger] parts@[j]) is None,
        decreases parts@.len() - i,
    {
        match validate_part(&parts[i]) {
            Err(e) => {
                proof { lemma_first_failure_parts(parts@, i as int); }
                return Err(wrap(indexed_name("parts", i), "Part", &e));
            },
            Ok(()) => {},
        }
        i = i + 1;
    }
    Ok(())
}

/// The outcome of validating a content item.
pub open spec fn content_check(c: Content) -> Option<ValidationErrorView> {
    if c.parts@.len() == 0 {
        Some(ValidationErrorView::EmptyCollection { field: "parts"@, context: "Content"@ })
    } else {
        parts_check(c.parts@)
    }
}

/// Validates a content item: it needs parts, each of them valid.
pub fn validate_content(content: &Content) -> (r: Result<(), ValidationError>)
    ensures
        outcome_is(r, content_check(*content)),
{
    if content.parts.len() == 0 {
        proof { reveal_strlit("parts"); reveal_strlit("Content"); }
        return Err(empty_collection("parts", "Content"));
    }
    check_parts(&content.parts)
}

/// The outcome of validating a list of contents item by item, naming the
/// failing item `contents[i]`.
pub open spec fn contents_check(cs: Seq<Content>) -> Option<ValidationErrorView> {
    if exists|i: int| 0 <= i < cs.len() && content_check(cs[i]) is Some {
        let i = choose|i: int| 0 <= i < cs.len() && content_check(cs[i]) is Some
            && forall|j: int| 0 <= j < i ==> content_check(#[trigger] cs[j]) is None;
        Some(wrapped(indexed("contents"@, i), "Content"@, content_check(cs[i]).unwrap()))
    } else {
        None
    }
}

proof fn lemma_first_failure_contents(cs: Seq<Content>, i: int)
    requires
        0 <= i < cs.len(),
        content_check(cs[i]) is Some,
        forall|j: int| 0 <= j < i ==> content_check(#[trigger] cs[j]) is None,
    ensures
        contents_check(cs) == Some(wrapped(indexed("contents"@, i), "Content"@, content_check(cs[i]).unwrap())),
{
    let k = choose|k: int| 0 <= k < cs.len() && content_check(cs[k]) is Some
        && forall|j: int| 0 <= j < k ==> content_check(#[trigger] cs[j]) is None;
    assert(0 <= k < cs.len() && content_check(cs[k]) is Some
        && forall|j: int| 0 <= j < k ==> content_check(#[trigger] cs[j]) is None);
    if k < i {
        assert(content_check(cs[k]) is None);
    } else if k > i {
        assert(content_check(cs[i]) is None);
    }
}

fn check_contents(contents: &Vec<Content>) -> (r: Result<(), ValidationError>)
    ensures
        outcome_is(r, contents_check(contents@)),
{
    proof { reveal_strlit("contents"); reveal_strlit("Content"); }
    let mut i: usize = 0;
    while i < contents.len()
        invariant
            i <= contents@.len(),
            forall|j: int| 0 <= j < i ==> content_check(#[trigger] contents@[j]) is None,
        decreases contents@.len() - i,
    {
        match validate_content(&contents[i]) {
            Err(e) => {
                proof { lemma_first_failure_contents(contents@, i as int); }
                return Err(wrap(indexed_name("contents", i), "Content", &e));
            },
            Ok(()) => {},
        }
        i = i + 1;
    }
    Ok(())
}

/// The outcome of validating a token counting request.
pub open spec fn count_tokens_check(r: CountTokensRequest) -> Option<ValidationErrorView> {
    if r.contents@.len() == 0 {
        Some(ValidationErrorView::EmptyCollection { field: "contents"@, context: "CountTokensRequest"@ })
    } else {
        contents_check(r.contents@)
    }
}

/// Validates a token counting request: it needs contents, each valid.
pub fn validate_count_tokens_request(request: &CountTokensRequest) -> (r: Result<(), ValidationError>)
    ensures
        outcome_is(r, count_tokens_check(*request)),
{
    if request.contents.len() == 0 {
        proof { reveal_strlit("contents"); reveal_strlit("CountTokensRequest"); }
        return Err(empty_collection("contents", "CountTokensRequest"));
    }
    check_contents(&request.contents)
}

/// The outcome of validating a token analysis request.
pub open spec fn analyze_tokens_check(r: AnalyzeTokensRequest) -> Option<ValidationErrorView> {
    if r.contents@.len() == 0 {
        Some(ValidationErrorView::EmptyCollection { field: "contents"@, context: "AnalyzeTokensRequest"@ })
    } else {
        contents_check(r.contents@)
    }
}

/// Validates a token analysis request: it needs contents, each valid.
pub fn validate_analyze_tokens_request(request: &AnalyzeTokensRequest) -> (r: Result<(), ValidationError>)
    ensures
        outcome_is(r, analyze_tokens_check(*request)),
{
    if request.contents.len() == 0 {
        proof { reveal_strlit("contents"); reveal_strlit("AnalyzeTokensRequest"); }
        return Err(empty_collection("contents", "AnalyzeTokensRequest"));
    }
    check_contents(&request.contents)
}

/// The outcome of validating the requests of a batch item by item.
pub open spec fn requests_check(rs: Seq<CountTokensRequest>) -> Option<ValidationErrorView> {
    if exists|i: int| 0 <= i < rs.len() && count_tokens_check(rs[i]) is Some {
        let i = choose|i: int| 0 <= i < rs.len() && count_tokens_check(rs[i]) is Some
            && forall|j: int| 0 <= j < i ==> count_tokens_check(#[trigger] rs[j]) is None;
        Some(wrapped(indexed("requests"@, i), "CountTokensRequest"@, count_tokens_check(rs[i]).unwrap()))
    } else {
        None
    }
}

/// The outcome of validating a batch token counting request.
pub open spec fn batch_count_tokens_check(r: BatchCountTokensRequest) -> Option<ValidationErrorView> {
    if r.requests@.len() == 0 {
        Some(ValidationErrorView::EmptyCollection { field: "requests"@, context: "BatchCountTokensRequest"@ })
    } else if r.requests@.len() > MAX_BATCH_TOKEN_REQUESTS {
        Some(ValidationErrorView::CollectionTooLarge {
            field: "requests"@,
            size: r.requests@.len() as int,
            max: MAX_BATCH_TOKEN_REQUESTS as int,
        })
    } else {
        requests_check(r.requests@)
    }
}

/// Validates a batch token counting request: between 1 and 100 requests,
/// each valid.
pub fn validate_batch_count_tokens_request(request: &BatchCountTokensRequest) -> (r: Result<(), ValidationError>)
    ensures
        outcome_is(r, batch_count_tokens_check(*request)),
{
    proof {
        reveal_strlit("requests");
        reveal_strlit("BatchCountTokensRequest");
        reveal_strlit("CountTokensRequest");
    }
    let n = request.requests.len();
    if n == 0 {
        return Err(empty_collection("requests", "BatchCountTokensRequest"));
    }
    if n > MAX_BATCH_TOKEN_REQUESTS {
        return Err(ValidationError::CollectionTooLarge { field: owned("requests"), size: n, max: MAX_BATCH_TOKEN_REQUESTS });
    }
    check_requests(&request.requests)
}

proof fn lemma_first_failure_requests(rs: Seq<CountTokensRequest>, i: int)
    requires
        0 <= i < rs.len(),
        count_tokens_check(rs[i]) is Some,
        forall|j: int| 0 <= j < i ==> count_tokens_check(#[trigger] rs[j]) is None,
    ensures
        requests_check(rs) == Some(wrapped(indexed("requests"@, i), "CountTokensRequest"@, count_tokens_check(rs[i]).unwrap())),
{
    let k = choose|k: int| 0 <= k < rs.len() && count_tokens_check(rs[k]) is Some
        && forall|j: int| 0 <= j < k ==> count_tokens_check(#[trigger] rs[j]) is None;
    assert(0 <= k < rs.len() && count_tokens_check(rs[k]) is Some
        && forall|j: int| 0 <= j < k ==> count_tokens_check(#[trigger] rs[j]) is None);
    if k < i {
        assert(count_tokens_check(rs[k]) is None);
    } else if k > i {
        assert(count_tokens_check(rs[i]) is None);
    }
}

fn check_requests(rs: &Vec<CountTokensRequest>) -> (r: Result<(), ValidationError>)
    ensures
        outcome_is(r, requests_check(rs@)),
{
    proof { reveal_strlit("requests"); reveal_strlit("CountTokensRequest"); }
    let mut i: usize = 0;
    while i < rs.len()
        invariant
            i <= rs@.len(),
            forall|j: int| 0 <= j < i ==> count_tokens_check(#[trigger] rs@[j]) is None,
        decreases rs@.len() - i,
    {
        match validate_count_tokens_request(&rs[i]) {
            Err(e) => {
                proof { lemma_first_failure_requests(rs@, i as int); }
                return Err(wrap(indexed_name("requests", i), "CountTokensRequest", &e));
            },
            Ok(()) => {},
        }
        i = i + 1;
    }
    Ok(())
}


/// The outcome of validating one allowed function name at index `i`.
pub open spec fn function_name_check(name: Seq<char>, i: int) -> Option<ValidationErrorView> {
    if blank(name) {
        Some(ValidationErrorView::RequiredFieldMissing {
            field: indexed("allowed_function_names"@, i),
            context: "FunctionCallingConfig"@,
        })
    } else if !all_ident_chars(name, "_"@) {
        Some(ValidationErrorView::InvalidFieldValue {
            field: indexed("allowed_function_names"@, i),
            value: name,
            reason: "Function name should contain only alphanumeric characters and underscores"@,
        })
    } else {
        None
    }
}

/// The outcome of validating a list of allowed function names item by item.
pub open spec fn function_names_check(names: Seq<String>) -> Option<ValidationErrorView> {
    if exists|i: int| 0 <= i < names.len() && function_name_check(names[i]@, i) is Some {
        let i = choose|i: int| 0 <= i < names.len() && function_name_check(names[i]@, i) is Some
            && forall|j: int| 0 <= j < i ==> function_name_check(#[trigger] names[j]@, j) is None;
        function_name_check(names[i]@, i)
    } else {
        None
    }
}

/// The outcome of validating a function calling configuration.
pub open spec fn function_calling_check(c: FunctionCallingConfig) -> Option<ValidationErrorView> {
    match c.allowed_function_names {
        None => None,
        Some(names) => if names@.len() == 0 {
            Some(ValidationErrorView::EmptyCollection { field: "allowed_function_names"@, context: "FunctionCallingConfig"@ })
        } else if names@.len() > MAX_ALLOWED_FUNCTION_NAMES {
            Some(ValidationErrorView::CollectionTooLarge {
                field: "allowed_function_names"@,
                size: names@.len() as int,
                max: MAX_ALLOWED_FUNCTION_NAMES as int,
            })
        } else {
            function_names_check(names@)
        },
    }
}

fn check_function_names(names: &Vec<String>) -> (r: Result<(), ValidationError>)
    ensures
        outcome_is(r, function_names_check(names@)),
{
    proof {
        reveal_strlit("allowed_function_names");
        reveal_strlit("FunctionCallingConfig");
        reveal_strlit("_");
        reveal_strlit("Function name should contain only alphanumeric characters and underscores");
    }
    let mut i: usize = 0;
    while i < names.len()
        invariant
            i <= names@.len(),
            forall|j: int| 0 <= j < i ==> function_name_check(#[trigger] names@[j]@, j) is None,
        decreases names@.len() - i,
    {
        let name = names[i].as_str();
        let bad = if is_blank(name) {
            Some(ValidationError::RequiredFieldMissing {
                field: indexed_name("allowed_function_names", i),
                context: owned("FunctionCallingConfig"),
            })
        } else if !only_ident_chars(name, "_") {
            Some(ValidationError::InvalidFieldValue {
                field: indexed_name("allowed_function_names", i),
                value: names[i].clone(),
                reason: owned("Function name should contain only alphanumeric characters and underscores"),
            })
        } else {
            None
        };
        match bad {
            Some(e) => {
                proof {
                    let ns = names@;
                    let k = choose|k: int| 0 <= k < ns.len() && function_name_check(ns[k]@, k) is Some
                        && forall|j: int| 0 <= j < k ==> function_name_check(#[trigger] ns[j]@, j) is None;
                    assert(function_name_check(ns[i as int]@, i as int) is Some);
                    assert(0 <= k < ns.len() && function_name_check(ns[k]@, k) is Some
                        && forall|j: int| 0 <= j < k ==> function_name_check(#[trigger] ns[j]@, j) is None);
                    if k < i {
                        assert(function_name_check(ns[k]@, k) is None);
                    } else if k > i {
                        assert(function_name_check(ns[i as int]@, i as int) is None);
                    }
                }
                return Err(e);
            },
            None => {},
        }
        i = i + 1;
    }
    Ok(())
}

/// Validates a function calling configuration: when names are listed there
/// are between 1 and 100 of them, none blank, each made of alphanumeric
/// characters and underscores.
pub fn validate_function_calling_config(config: &FunctionCallingConfig) -> (r: Result<(), ValidationError>)
    ensures
        outcome_is(r, function_calling_check(*config)),
{
    proof {
        reveal_strlit("allowed_function_names");
        reveal_strlit("FunctionCallingConfig");
    }
    match &config.allowed_function_names {
        None => Ok(()),
        Some(names) => {
            let n = names.len();
            if n == 0 {
                return Err(empty_collection("allowed_function_names", "FunctionCallingConfig"));
            }
            if n > MAX_ALLOWED_FUNCTION_NAMES {
                return Err(ValidationError::CollectionTooLarge {
                    field: owned("allowed_function_names"),
                    size: n,
                    max: MAX_ALLOWED_FUNCTION_NAMES,
                });
            }
            check_function_names(names)
        },
    }
}

/// The outcome of validating a code execution configuration: a timeout, when
/// set, lies between 1 and 300 seconds.
pub open spec fn code_execution_check(c: CodeExecutionConfig) -> Option<ValidationErrorView> {
    match c.timeout {
        Some(t) => if t <= 0 || t > MAX_CODE_EXECUTION_TIMEOUT {
            Some(ValidationErrorView::ValueOutOfRange {
                field: "timeout"@,
                value: t as int,
                min: Some(1),
                max: Some(MAX_CODE_EXECUTION_TIMEOUT as int),
            })
        } else {
            None
        },
        None => None,
    }
}

/// Validates a code execution configuration.
pub fn validate_code_execution_config(config: &CodeExecutionConfig) -> (r: Result<(), ValidationError>)
    ensures
        outcome_is(r, code_execution_check(*config)),
{
    if let Some(timeout) = config.timeout {
        if timeout <= 0 || timeout > MAX_CODE_EXECUTION_TIMEOUT {
            proof { reveal_strlit("timeout"); }
            return Err(ValidationError::ValueOutOfRange {
                field: owned("timeout"),
                value: timeout as i64,
                min: Some(1),
                max: Some(MAX_CODE_EXECUTION_TIMEOUT as i64),
            });
        }
    }
    Ok(())
}

/// The outcome of validating a code execution tool.
pub open spec fn code_execution_tool_check(t: CodeExecutionTool) -> Option<ValidationErrorView> {
    match t.config {
        Some(c) => match code_execution_check(c) {
            Some(e) => Some(wrapped("config"@, "CodeExecutionConfig"@, e)),
            None => None,
        },
        None => None,
    }
}

/// Validates a code execution tool through its configuration.
pub fn validate_code_execution_tool(tool: &CodeExecutionTool) -> (r: Result<(), ValidationError>)
    ensures
        outcome_is(r, code_execution_tool_check(*tool)),
{
    if let Some(config) = &tool.config {
        match validate_code_execution_config(config) {
            Err(e) => {
                proof { reveal_strlit("config"); reveal_strlit("CodeExecutionConfig"); }
                return Err(wrap(owned("config"), "CodeExecutionConfig", &e));
            },
            Ok(()) => {},
        }
    }
    Ok(())
}

/// The outcome of validating a tool configuration.
pub open spec fn tool_config_check(c: ToolConfig) -> Option<ValidationErrorView> {
    let fc = match c.function_calling_config {
        Some(f) => match function_calling_check(f) {
            Some(e) => Some(wrapped("function_calling_config"@, "FunctionCallingConfig"@, e)),
            None => None,
        },
        None => None,
    };
    if fc is Some {
        fc
    } else {
        match c.code_execution {
            Some(x) => match code_execution_check(x) {
                Some(e) => Some(wrapped("code_execution"@, "CodeExecutionConfig"@, e)),
                None => None,
            },
            None => None,
        }
    }
}

/// Validates a tool configuration: its function calling and code execution
/// parts, in that order.
pub fn validate_tool_config(config: &ToolConfig) -> (r: Result<(), ValidationError>)
    ensures
        outcome_is(r, tool_config_check(*config)),
{
    proof {
        reveal_strlit("function_calling_config");
        reveal_strlit("FunctionCallingConfig");
        reveal_strlit("code_execution");
        reveal_strlit("CodeExecutionConfig");
    }
    if let Some(function_calling_config) = &config.function_calling_config {
        match validate_function_calling_config(function_calling_config) {
            Err(e) => {
                return Err(wrap(owned("function_calling_config"), "FunctionCallingConfig", &e));
            },
            Ok(()) => {},
        }
    }
    if let Some(code_execution_config) = &config.code_execution {
        match validate_code_execution_config(code_execution_config) {
            Err(e) => {
                return Err(wrap(owned("code_execution"), "CodeExecutionConfig", &e));
            },
            Ok(()) => {},
        }
    }
    Ok(())
}

/// Whether some part carries non-blank text.
pub open spec fn has_text_part(parts: Seq<Part>) -> bool {
    exists|i: int| 0 <= i < parts.len() && has_content(#[trigger] parts[i].text)
}

/// The outcome of validating a system instruction.
pub open spec fn system_instruction_check(s: SystemInstruction) -> Option<ValidationErrorView> {
    if s.parts@.len() == 0 {
        Some(ValidationErrorView::EmptyCollection { field: "parts"@, context: "SystemInstruction"@ })
    } else if parts_check(s.parts@) is Some {
        parts_check(s.parts@)
    } else if !has_text_part(s.parts@) {
        Some(ValidationErrorView::RequiredFieldMissing {
            field: "text_content"@,
            context: "SystemInstruction should contain at least one text part"@,
        })
    } else {
        None
    }
}

/// Validates a system instruction: it needs parts, each valid, at least one
/// of them with text.
pub fn validate_system_instruction(instruction: &SystemInstruction) -> (r: Result<(), ValidationError>)
    ensures
        outcome_is(r, system_instruction_check(*instruction)),
{
    proof {
        reveal_strlit("parts");
        reveal_strlit("SystemInstruction");
        reveal_strlit("text_content");
        reveal_strlit("SystemInstruction should contain at least one text part");
    }
    if instruction.parts.len() == 0 {
        return Err(empty_collection("parts", "SystemInstruction"));
    }
    match check_parts(&instruction.parts) {
        Err(e) => return Err(e),
        Ok(()) => {},
    }
    let mut i: usize = 0;
    while i < instruction.parts.len()
        invariant
            i <= instruction.parts@.len(),
            instruction.parts@.len() > 0,
            parts_check(instruction.parts@) is None,
            forall|j: int| 0 <= j < i ==> !has_content(#[trigger] instruction.parts@[j].text),
        decreases instruction.parts@.len() - i,
    {
        if has_content_exec(&instruction.parts[i].text) {
            assert(has_content(instruction.parts@[i as int].text));
            return Ok(());
        }
        i = i + 1;
    }
    Err(required("text_content", "SystemInstruction should contain at least one text part"))
}

/// The outcome of validating a tuning example: it needs a non-blank input
/// or output.
pub open spec fn tuning_example_check(e: TuningExample) -> Option<ValidationErrorView> {
    if !has_content(e.text_input) && !has_content(e.output) {
        Some(ValidationErrorView::RequiredFieldMissing {
            field: "text_input_or_output"@,
            context: "TuningExample must have at least text_input or output"@,
        })
    } else {
        None
    }
}

/// Validates a tuning example.
pub fn validate_tuning_example(example: &TuningExample) -> (r: Result<(), ValidationError>)
    ensures
        outcome_is(r, tuning_example_check(*example)),
{
    let has_input = has_content_exec(&example.text_input);
    let has_output = has_content_exec(&example.output);
    if !has_input && !has_output {
        proof {
            reveal_strlit("text_input_or_output");
            reveal_strlit("TuningExample must have at least text_input or output");
        }
        return Err(required("text_input_or_output", "TuningExample must have at least text_input or output"));
    }
    Ok(())
}

/// The outcome of validating a list of examples item by item.
pub open spec fn examples_check(es: Seq<TuningExample>) -> Option<ValidationErrorView> {
    if exists|i: int| 0 <= i < es.len() && tuning_example_check(es[i]) is Some {
        let i = choose|i: int| 0 <= i < es.len() && tuning_example_check(es[i]) is Some
            && forall|j: int| 0 <= j < i ==> tuning_example_check(#[trigger] es[j]) is None;
        Some(wrapped(indexed("examples"@, i), "TuningExample"@, tuning_example_check(es[i]).unwrap()))
    } else {
        None
    }
}

/// The outcome of validating a dataset.
pub open spec fn dataset_check(d: Dataset) -> Option<ValidationErrorView> {
    match d.examples {
        None => None,
        Some(ex) => if ex.examples@.len() == 0 {
            Some(ValidationErrorView::EmptyCollection { field: "examples"@, context: "Dataset"@ })
        } else if ex.examples@.len() > MAX_TUNING_EXAMPLES {
            Some(ValidationErrorView::CollectionTooLarge {
                field: "examples"@,
                size: ex.examples@.len() as int,
                max: MAX_TUNING_EXAMPLES as int,
            })
        } else {
            examples_check(ex.examples@)
        },
    }
}

/// Whether a tuning example has a non-blank input or a non-blank output.
pub open spec fn example_has_text(e: TuningExample) -> bool {
    has_content(e.text_input) || has_content(e.output)
}

/// A dataset of 1 to 10000 inline examples is accepted exactly when every
/// example has a non-blank input or output; otherwise the first example
/// without either is reported, at its index, as an invalid
/// `TuningExample` whose reason is the missing `text_input_or_output`.
pub proof fn law_dataset_examples_checked(d: Dataset, k: int)
    requires
        d.examples matches Some(ex) && 1 <= ex.examples@.len() <= 10000,
    ensures
        dataset_check(d) is None <==> (forall|i: int| 0 <= i < d.examples.unwrap().examples@.len()
            ==> example_has_text(#[trigger] d.examples.unwrap().examples@[i])),
        dataset_check(d) matches Some(e) ==> e is InvalidFieldValue,
        ({
            let es = d.examples.unwrap().examples@;
            (0 <= k < es.len() && !example_has_text(es[k]) && forall|j: int| 0 <= j < k ==> example_has_text(#[trigger] es[j]))
                ==> dataset_check(d) == Some(ValidationErrorView::InvalidFieldValue {
                    field: "examples["@ + decimal(k as nat) + "]"@,
                    value: "TuningExample"@,
                    reason: validation_message(ValidationErrorView::RequiredFieldMissing {
                        field: "text_input_or_output"@,
                        context: "TuningExample must have at least text_input or output"@,
                    }),
                })
        }),
{
    let es = d.examples.unwrap().examples@;
    assert(dataset_check(d) == examples_check(es));
    assert forall|i: int| 0 <= i < es.len() implies (tuning_example_check(#[trigger] es[i]) is None <==> example_has_text(es[i])) by {}
    if exists|i: int| 0 <= i < es.len() && tuning_example_check(es[i]) is Some {
        let w = choose|w: int| 0 <= w < es.len() && tuning_example_check(es[w]) is Some;
        assert(!example_has_text(es[w]));
        let i = choose|i: int| 0 <= i < es.len() && tuning_example_check(es[i]) is Some
            && forall|j: int| 0 <= j < i ==> tuning_example_check(#[trigger] es[j]) is None;
        lemma_first_failing_exists(es, w);
        if 0 <= k < es.len() && !example_has_text(es[k]) && forall|j: int| 0 <= j < k ==> example_has_text(#[trigger] es[j]) {
            if i < k {
                assert(example_has_text(es[i]));
            } else if i > k {
                assert(tuning_example_check(es[k]) is None);
            }
            assert(i == k);
            reveal_strlit("examples[");
            reveal_strlit("examples");
            reveal_strlit("[");
            assert(indexed("examples"@, k) =~= "examples["@ + decimal(k as nat) + "]"@);
        }
    } else {
        if 0 <= k < es.len() && !example_has_text(es[k]) {
            assert(tuning_example_check(es[k]) is Some);
        }
    }
}

/// A dataset without inline examples is accepted; one whose example list
/// is empty is refused as an empty `examples` collection of a `Dataset`;
/// one with more than 10000 examples as a collection too large, with its
/// size and the maximum 10000.
pub proof fn law_dataset_sizes(d: Dataset)
    ensures
        d.examples is None ==> dataset_check(d) is None,
        d.examples matches Some(ex) ==> (ex.examples@.len() == 0 ==> dataset_check(d)
            == Some(ValidationErrorView::EmptyCollection { field: "examples"@, context: "Dataset"@ })),
        d.examples matches Some(ex) ==> (ex.examples@.len() > 10000 ==> dataset_check(d)
            == Some(ValidationErrorView::CollectionTooLarge { field: "examples"@, size: ex.examples@.len() as int, max: 10000 })),
{
}

proof fn lemma_first_failing_exists(es: Seq<TuningExample>, w: int)
    requires
        0 <= w < es.len(),
        tuning_example_check(es[w]) is Some,
    ensures
        exists|i: int| 0 <= i < es.len() && tuning_example_check(es[i]) is Some
            && forall|j: int| 0 <= j < i ==> tuning_example_check(#[trigger] es[j]) is None,
    decreases w,
{
    if exists|j: int| 0 <= j < w && tuning_example_check(es[j]) is Some {
        let j = choose|j: int| 0 <= j < w && tuning_example_check(es[j]) is Some;
        lemma_first_failing_exists(es, j);
    } else {
        assert(forall|j: int| 0 <= j < w ==> tuning_example_check(#[trigger] es[j]) is None);
    }
}

fn check_examples(es: &Vec<TuningExample>) -> (r: Result<(), ValidationError>)
    ensures
        outcome_is(r, examples_check(es@)),
{
    proof { reveal_strlit("examples"); reveal_strlit("TuningExample"); }
    let mut i: usize = 0;
    while i < es.len()
        invariant
            i <= es@.len(),
            forall|j: int| 0 <= j < i ==> tuning_example_check(#[trigger] es@[j]) is None,
        decreases es@.len() - i,
    {
        match validate_tuning_example(&es[i]) {
            Err(e) => {
                proof {
                    let s = es@;
                    let k = choose|k: int| 0 <= k < s.len() && tuning_example_check(s[k]) is Some
                        && forall|j: int| 0 <= j < k ==> tuning_example_check(#[trigger] s[j]) is None;
                    assert(0 <= k < s.len() && tuning_example_check(s[k]) is Some
                        && forall|j: int| 0 <= j < k ==> tuning_example_check(#[trigger] s[j]) is None);
                    if k < i {
                        assert(tuning_example_check(s[k]) is None);
                    } else if k > i {
                        assert(tuning_example_check(s[i as int]) is None);
                    }
                }
                return Err(wrap(indexed_name("examples", i), "TuningExample", &e));
            },
            Ok(()) => {},
        }
        i = i + 1;
    }
    Ok(())
}

/// Validates a dataset: inline examples, when present, number between 1 and
/// 10000 and are each valid.
pub fn validate_dataset(dataset: &Dataset) -> (r: Result<(), ValidationError>)
    ensures
        outcome_is(r, dataset_check(*dataset)),
{
    proof { reveal_strlit("examples"); reveal_strlit("Dataset"); }
    match &dataset.examples {
        None => Ok(()),
        Some(tuning_examples) => {
            let n = tuning_examples.examples.len();
            if n == 0 {
                return Err(empty_collection("examples", "Dataset"));
            }
            if n > MAX_TUNING_EXAMPLES {
                return Err(ValidationError::CollectionTooLarge { field: owned("examples"), size: n, max: MAX_TUNING_EXAMPLES });
            }
            check_examples(&tuning_examples.examples)
        },
    }
}

/// The outcome of validating a list-tuned-models request: a page size, when
/// set, lies between 1 and 1000.
pub open spec fn list_tuned_models_check(r: ListTunedModelsRequest) -> Option<ValidationErrorView> {
    match r.page_size {
        Some(p) => if p <= 0 || p > 1000 {
            Some(ValidationErrorView::ValueOutOfRange { field: "page_size"@, value: p as int, min: Some(1), max: Some(1000) })
        } else {
            None
        },
        None => None,
    }
}

/// Validates a list-tuned-models request.
pub fn validate_list_tuned_models_request(request: &ListTunedModelsRequest) -> (r: Result<(), ValidationError>)
    ensures
        outcome_is(r, list_tuned_models_check(*request)),
{
    if let Some(page_size) = request.page_size {
        if page_size <= 0 || page_size > 1000 {
            proof { reveal_strlit("page_size"); }
            return Err(ValidationError::ValueOutOfRange {
                field: owned("page_size"),
                value: page_size as i64,
                min: Some(1),
                max: Some(1000),
            });
        }
    }
    Ok(())
}

/// The outcome of checking a chosen tuned-model identifier: it must not be
/// blank and may hold only alphanumeric characters, hyphens and underscores.
pub open spec fn tuned_model_id_check(id: Seq<char>) -> Option<ValidationErrorView> {
    if blank(id) {
        Some(ValidationErrorView::RequiredFieldMissing { field: "tuned_model_id"@, context: "CreateTunedModelRequest"@ })
    } else if !all_ident_chars(id, "-_"@) {
        Some(ValidationErrorView::InvalidFieldValue {
            field: "tuned_model_id"@,
            value: id,
            reason: "Tuned model ID should contain only alphanumeric characters, hyphens, and underscores"@,
        })
    } else {
        None
    }
}

/// Validates a chosen tuned-model identifier: see [`tuned_model_id_check`].
pub fn validate_tuned_model_id(id: &str) -> (r: Result<(), ValidationError>)
    ensures
        outcome_is(r, tuned_model_id_check(id@)),
{
    proof {
        reveal_strlit("tuned_model_id");
        reveal_strlit("CreateTunedModelRequest");
        reveal_strlit("-_");
        reveal_strlit("Tuned model ID should contain only alphanumeric characters, hyphens, and underscores");
    }
    if is_blank(id) {
        return Err(required("tuned_model_id", "CreateTunedModelRequest"));
    }
    if !only_ident_chars(id, "-_") {
        return Err(ValidationError::InvalidFieldValue {
            field: owned("tuned_model_id"),
            value: owned(id),
            reason: owned("Tuned model ID should contain only alphanumeric characters, hyphens, and underscores"),
        });
    }
    Ok(())
}

/// The outcome of checking the whole-number setting `field` of value
/// `value` against its accepted range, from `min` up to `max` when there is
/// one.
pub open spec fn whole_range_check(field: Seq<char>, value: int, min: int, max: Option<int>) -> Option<ValidationErrorView> {
    if value < min || (max matches Some(m) && value > m) {
        Some(ValidationErrorView::ValueOutOfRange { field, value, min: Some(min), max })
    } else {
        None
    }
}

/// Validates a whole-number setting against its accepted range: see
/// [`whole_range_check`].
pub fn validate_whole_in_range(field: &str, value: i32, min: i64, max: Option<i64>) -> (r: Result<(), ValidationError>)
    ensures
        outcome_is(r, whole_range_check(field@, value as int, min as int, opt_int(max))),
{
    let v: i64 = value as i64;
    let above = match max {
        Some(m) => v > m,
        None => false,
    };
    if v < min || above {
        return Err(ValidationError::ValueOutOfRange { field: owned(field), value: v, min: Some(min), max });
    }
    Ok(())
}

} // verus!
