use vstd::prelude::*;
use crate::chave::Chave;
use crate::erro_atalhos::ErroAtalhos;
use crate::texto::{copiar, textos_iguais};

verus! {

/// O valor de uma chave gsettings antes da supressão, opaco para quem chama:
/// só a fonte que o produziu sabe decodificá-lo de volta.
#[derive(Debug, Clone, PartialEq, Eq)]
pub struct ValorOriginal(String);

impl View for ValorOriginal {
    type V = Seq<char>;

    closed spec fn view(&self) -> Seq<char> {
        self.0@
    }
}

impl ValorOriginal {
    pub fn novo(texto: String) -> (r: Self)
        ensures
            r@ == texto@,
    {
        ValorOriginal(texto)
    }

    pub fn texto(&self) -> (r: &str)
        ensures
            r@ == self@,
    {
        self.0.as_str()
    }
}

/// Acesso às chaves gsettings. O gerenciador só fala com isto; quem usa a
/// biblioteca fornece a implementação (a real, sobre o gsettings, ou uma
/// falsa em teste). Nada é prometido do que cada chamada devolve.
pub trait FonteDeAtalhos {
    fn ler(&self, chave: &Chave) -> Result<ValorOriginal, ErroAtalhos>;

    fn desligar(&self, chave: &Chave) -> Result<(), ErroAtalhos>;

    fn religar(&self, chave: &Chave, original: &ValorOriginal) -> Result<(), ErroAtalhos>;
}

/// O valor que desliga uma chave, conforme o tipo que o esquema declara.
#[derive(Debug, Clone, Copy, PartialEq, Eq)]
pub enum ValorDesligado {
    /// Para o tipo `as`: a lista de strings vazia.
    ListaVazia,
    /// Para o tipo `s`: a string vazia.
    TextoVazio,
}

/// Escolhe o valor desligado pelo tipo declarado no esquema: lista de strings
/// vira lista vazia, string vira string vazia, qualquer outro tipo é recusado.
pub fn valor_desligado_para(chave: &Chave, tipo: &str) -> (r: Result<ValorDesligado, ErroAtalhos>)
    ensures
        tipo@ == "as"@ ==> r == Ok::<ValorDesligado, ErroAtalhos>(ValorDesligado::ListaVazia),
        tipo@ == "s"@ ==> r == Ok::<ValorDesligado, ErroAtalhos>(ValorDesligado::TextoVazio),
        tipo@ != "as"@ && tipo@ != "s"@ ==> (r matches Err(ErroAtalhos::TipoNaoSuportado { chave: c, tipo: t })
            && c@ == chave.nome@ && t@ == tipo@),
{
    proof {
        reveal_strlit("as");
        reveal_strlit("s");
        assert("as"@.len() != "s"@.len());
    }
    if textos_iguais(tipo, "as") {
        Ok(ValorDesligado::ListaVazia)
    } else if textos_iguais(tipo, "s") {
        Ok(ValorDesligado::TextoVazio)
    } else {
        Err(ErroAtalhos::TipoNaoSuportado { chave: copiar(chave.nome), tipo: copiar(tipo) })
    }
}

} // verus!
