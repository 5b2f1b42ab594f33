use vstd::prelude::*;
use crate::text::{int_decimal, push_char, push_i64_decimal};

verus! {

/// An access token as the token endpoint returns it.
#[derive(Debug, Clone)]
pub struct AccessToken {
    pub access_token: String,
    pub token_type: String,
    pub expires_in: i64,
}

impl AccessToken {
    /// The token as its `Display` writes it: token, type and lifetime
    /// separated by spaces, ending the line.
    pub fn to_display_string(&self) -> (s: String)
        ensures
            s@ == self.access_token@ + seq![' '] + self.token_type@ + seq![' ']
                + int_decimal(self.expires_in as int) + seq!['\n'],
    {
        let mut s = self.access_token.clone();
        push_char(&mut s, ' ');
        s.append(self.token_type.as_str());
        push_char(&mut s, ' ');
        push_i64_decimal(&mut s, self.expires_in);
        push_char(&mut s, '\n');
        assert(s@ =~= self.access_token@ + seq![' '] + self.token_type@ + seq![' ']
                + int_decimal(self.expires_in as int) + seq!['\n']);
        s
    }
}

} // verus!
