use vstd::prelude::*;
use vstd::string::StringExecFns;

verus! {

/// What a cloud call can fail with: a non-success answer from the API, a
/// rejected credential, or a transport failure (carried here as the
/// transport's own description of it).
#[derive(Clone, Debug, PartialEq)]
pub enum APIError {
    Error { error: String },
    AuthError,
    HTTPError { error: String },
}

/// The digit character for one decimal digit.
pub open spec fn spec_digit(d: int) -> char {
    if d == 0 {
        '0'
    } else if d == 1 {
        '1'
    } else if d == 2 {
        '2'
    } else if d == 3 {
        '3'
    } else if d == 4 {
        '4'
    } else if d == 5 {
        '5'
    } else if d == 6 {
        '6'
    } else if d == 7 {
        '7'
    } else if d == 8 {
        '8'
    } else {
        '9'
    }
}

/// The decimal numeral of a non-negative number, most significant digit
/// first and without leading zeroes.
pub open spec fn spec_decimal(n: int) -> Seq<char>
    decreases n,
{
    if n < 10 {
        seq![spec_digit(n)]
    } else {
        spec_decimal(n / 10).push(spec_digit(n % 10))
    }
}

/// One decimal digit as a string.
fn digit_str(d: u16) -> (r: &'static str)
    requires
        d < 10,
    ensures
        r@ == seq![spec_digit(d as int)],
{
    let r = match d {
        0 => "0",
        1 => "1",
        2 => "2",
        3 => "3",
        4 => "4",
        5 => "5",
        6 => "6",
        7 => "7",
        8 => "8",
        _ => "9",
    };
    proof {
        reveal_strlit("0");
        reveal_strlit("1");
        reveal_strlit("2");
        reveal_strlit("3");
        reveal_strlit("4");
        reveal_strlit("5");
        reveal_strlit("6");
        reveal_strlit("7");
        reveal_strlit("8");
        reveal_strlit("9");
        assert(r@ =~= seq![spec_digit(d as int)]);
    }
    r
}

/// Render a status code (or any small number) as its decimal numeral.
pub fn u16_decimal(n: u16) -> (r: String)
    ensures
        r@ == spec_decimal(n as int),
    decreases n,
{
    if n < 10 {
        digit_str(n).to_owned()
    } else {
        let high = u16_decimal(n / 10);
        let low = digit_str(n % 10);
        let r = high.concat(low);
        proof {
            assert(r@ =~= spec_decimal(n as int));
        }
        r
    }
}

/// How the dashboard reads a cloud answer's HTTP status: success passes, a
/// rejected credential is an authorization failure, and anything else is
/// reported with the code it came with.
pub fn classify_status(status: u16) -> (r: Result<(), APIError>)
    ensures
        r is Ok <==> status == 200,
        status == 401 ==> r == Err::<(), APIError>(APIError::AuthError),
        status != 200 && status != 401 ==> match r {
            Err(APIError::Error { error }) => error@ == "Returned with non-200 code: "@ + spec_decimal(
                status as int,
            ),
            _ => false,
        },
{
    if status == 200 {
        Ok(())
    } else if status == 401 {
        Err(APIError::AuthError)
    } else {
        let prefix: String = "Returned with non-200 code: ".to_owned();
        let message = prefix.concat(u16_decimal(status).as_str());
        Err(APIError::Error { error: message })
    }
}

} // verus!
