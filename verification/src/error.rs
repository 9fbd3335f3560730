use vstd::prelude::*;

verus! {

/// An error of the program: a message for the user.
#[derive(Debug)]
pub struct Error {
    pub message: String,
}

impl View for Error {
    type V = Seq<char>;

    open spec fn view(&self) -> Seq<char> {
        self.message@
    }
}

impl Error {
    /// An error with the message `message`.
    pub fn new(message: &str) -> (e: Error)
        ensures
            e@ == message@,
    {
        Error { message: message.to_owned() }
    }

    /// The message of the error.
    pub fn message(&self) -> (text: String)
        ensures
            text@ == self@,
    {
        self.message.as_str().to_owned()
    }
}

/// The upper-case hexadecimal digit of `d`, for `0 <= d < 16`.
pub open spec fn hex_digit(d: int) -> char {
    if d < 10 {
        ('0' as int + d) as char
    } else {
        ('A' as int + d - 10) as char
    }
}

/// `code` written as exactly eight upper-case hexadecimal digits, the most
/// significant first.
pub open spec fn upper_hex8(code: u32) -> Seq<char> {
    Seq::new(
        8,
        |i: int| hex_digit((code as int / vstd::arithmetic::power::pow(16, (7 - i) as nat)) % 16),
    )
}

/// The decimal digit of `d`, for `0 <= d < 10`.
pub open spec fn decimal_digit(d: int) -> char {
    ('0' as int + d) as char
}

/// `n` written in decimal, without leading zeros.
pub open spec fn decimal(n: nat) -> Seq<char>
    decreases n,
{
    if n < 10 {
        seq![decimal_digit(n as int)]
    } else {
        decimal(n / 10).push(decimal_digit((n % 10) as int))
    }
}

/// `format!("{:08X}", code)` of std: `code` as eight upper-case hexadecimal
/// digits, zero-padded. The contract claims that the text is exactly those
/// digits, most significant first.
#[verifier::external_body]
fn upper_hex_text(code: u32) -> (text: String)
    ensures
        text@ == upper_hex8(code),
{
    format!("{:08X}", code)
}

/// `format!("{}", n)` of std: `n` in decimal. The contract claims that the
/// text is the decimal digits of `n` without leading zeros.
#[verifier::external_body]
pub(crate) fn decimal_text(n: usize) -> (text: String)
    ensures
        text@ == decimal(n as nat),
{
    format!("{}", n)
}

/// The message of a failed Shell call: the operation, then the HRESULT as
/// eight hexadecimal digits.
pub open spec fn failure_message(operation: Seq<char>, code: u32) -> Seq<char> {
    operation + " failed (HRESULT 0x"@ + upper_hex8(code) + ")"@
}

/// Checks an HRESULT: success codes (non-negative) give `Ok`, failure codes
/// an error naming the operation and the code.
pub fn check(hr: i32, operation: &str) -> (r: Result<(), Error>)
    ensures
        r is Ok <==> hr >= 0,
        r matches Err(e) ==> e@ == failure_message(operation@, hr as u32),
{
    if hr >= 0 {
        Ok(())
    } else {
        let mut message = operation.to_owned();
        message.append(" failed (HRESULT 0x");
        let digits = upper_hex_text(hr as u32);
        message.append(digits.as_str());
        message.append(")");
        Err(Error { message })
    }
}

} // verus!
