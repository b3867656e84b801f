use vstd::prelude::*;
use vstd::string::*;
use crate::error::AppError;
use crate::service::ServiceType;
use crate::text::{fields, split_fields, str_eq};

verus! {

/// The service named by the third field of an identifier, if it is a known one.
pub open spec fn service_of_field(f: Seq<char>) -> Option<ServiceType> {
    if f == "ec2"@ {
        Some(ServiceType::EC2)
    } else if f == "s3"@ {
        Some(ServiceType::S3)
    } else if f == "rds"@ {
        Some(ServiceType::RDS)
    } else if f == "iam"@ {
        Some(ServiceType::IAM)
    } else if f == "secretsmanager"@ {
        Some(ServiceType::Secrets)
    } else if f == "eks"@ {
        Some(ServiceType::EKS)
    } else {
        None
    }
}

/// `r` is a parse error with the given message.
pub open spec fn is_parse_error<T>(r: Result<T, AppError>, msg: Seq<char>) -> bool {
    match r {
        Err(AppError::Parse(m)) => m@ == msg,
        _ => false,
    }
}

fn parse_error(prefix: &str, arn: &str) -> (r: AppError)
    ensures
        match r {
            AppError::Parse(m) => m@ == prefix@ + arn@,
            _ => false,
        },
{
    let mut m = String::from_str(prefix);
    m.append(arn);
    AppError::Parse(m)
}

impl ServiceType {
    /// The service named by the third colon-separated field of a resource
    /// identifier. Fewer than three fields, or an unknown name, is a parse error.
    pub fn from_arn(arn: &str) -> (r: Result<ServiceType, AppError>)
        ensures
            fields(arn@, ':').len() < 3 ==> is_parse_error(r, "Invalid ARN format: "@ + arn@),
            fields(arn@, ':').len() >= 3 ==> match service_of_field(fields(arn@, ':')[2]) {
                Some(s) => r == Ok::<ServiceType, AppError>(s),
                None => is_parse_error(r, "Unknown service type in ARN: "@ + arn@),
            },
    {
        let parts = split_fields(arn, ':');
        if parts.len() < 3 {
            return Err(parse_error("Invalid ARN format: ", arn));
        }
        assert(parts@[2]@ == fields(arn@, ':')[2]);
        let f = parts[2].as_str();
        if str_eq(f, "ec2") {
            Ok(ServiceType::EC2)
        } else if str_eq(f, "s3") {
            Ok(ServiceType::S3)
        } else if str_eq(f, "rds") {
            Ok(ServiceType::RDS)
        } else if str_eq(f, "iam") {
            Ok(ServiceType::IAM)
        } else if str_eq(f, "secretsmanager") {
            Ok(ServiceType::Secrets)
        } else if str_eq(f, "eks") {
            Ok(ServiceType::EKS)
        } else {
            Err(parse_error("Unknown service type in ARN: ", arn))
        }
    }
}

/// The resource id of an identifier: the last slash-separated piece of its sixth
/// colon-separated field. Fewer than six fields is a parse error.
pub fn extract_resource_id(arn: &str) -> (r: Result<String, AppError>)
    ensures
        fields(arn@, ':').len() < 6 ==> is_parse_error(r, "Invalid ARN format: "@ + arn@),
        fields(arn@, ':').len() >= 6 ==> match r {
            Ok(id) => id@ == fields(fields(arn@, ':')[5], '/').last(),
            Err(_) => false,
        },
{
    let parts = split_fields(arn, ':');
    if parts.len() < 6 {
        return Err(parse_error("Invalid ARN format: ", arn));
    }
    assert(parts@[5]@ == fields(arn@, ':')[5]);
    let pieces = split_fields(parts[5].as_str(), '/');
    let last = pieces.len() - 1;
    assert(pieces@[last as int]@ == fields(parts@[5]@, '/').last());
    Ok(pieces[last].clone())
}

/// The region of an identifier: its fourth colon-separated field. Fewer than
/// four fields is a parse error.
pub fn extract_region_from_arn(arn: &str) -> (r: Result<String, AppError>)
    ensures
        fields(arn@, ':').len() < 4 ==> is_parse_error(r, "Invalid ARN format: "@ + arn@),
        fields(arn@, ':').len() >= 4 ==> match r {
            Ok(region) => region@ == fields(arn@, ':')[3],
            Err(_) => false,
        },
{
    let parts = split_fields(arn, ':');
    if parts.len() < 4 {
        return Err(parse_error("Invalid ARN format: ", arn));
    }
    assert(parts@[3]@ == fields(arn@, ':')[3]);
    Ok(parts[3].clone())
}

/// A text cut to at most `max_len` characters: longer texts keep their first
/// `max_len - 3` characters (none when `max_len < 3`) followed by "...".
pub fn truncate_string(s: &str, max_len: usize) -> (r: String)
    ensures
        s@.len() <= max_len ==> r@ == s@,
        s@.len() > max_len ==> r@ == s@.take(if max_len >= 3 { max_len - 3 } else { 0 }) + "..."@,
{
    let n = s.unicode_len();
    if n <= max_len {
        return s.to_string();
    }
    let keep: usize = if max_len >= 3 { max_len - 3 } else { 0 };
    let mut r = String::from_str(s.substring_char(0, keep));
    r.append("...");
    r
}

} // verus!
