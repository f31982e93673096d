//! The two ways a conversion can fail, and how each is reported.

use vstd::prelude::*;

verus! {

/// Why no outline could be produced.
#[derive(Debug, Clone, Copy, PartialEq, Eq, Structural)]
pub enum ConversionError {
    /// The input text is not standard base64.
    Base64,
    /// The decoded bytes are not an image that can be loaded.
    Image,
}

impl ConversionError {
    /// The fixed message that reports this failure.
    pub open spec fn spec_message(self) -> Seq<char> {
        match self {
            ConversionError::Base64 => "Erro ao decodificar base64"@,
            ConversionError::Image => "Erro ao carregar imagem"@,
        }
    }

    /// The fixed message that reports this failure.
    pub fn message(&self) -> (text: String)
        ensures
            text@ == self.spec_message(),
    {
        match self {
            ConversionError::Base64 => "Erro ao decodificar base64".to_owned(),
            ConversionError::Image => "Erro ao carregar imagem".to_owned(),
        }
    }
}

/// The two messages differ, so a caller can tell the failures apart.
pub proof fn lemma_messages_differ()
    ensures
        ConversionError::Base64.spec_message() != ConversionError::Image.spec_message(),
{
    reveal_strlit("Erro ao decodificar base64");
    reveal_strlit("Erro ao carregar imagem");
    assert("Erro ao decodificar base64"@.len() == 26);
    assert("Erro ao carregar imagem"@.len() == 23);
}

} // verus!
