use vstd::prelude::*;

verus! {

/// O erro de entrada e saída de `std`, que o gravador do snapshot devolve.
#[verifier::external_type_specification]
#[verifier::external_body]
pub struct ErroDeEntradaESaida(std::io::Error);

/// Falhas ao suprimir ou restaurar os atalhos.
#[derive(Debug)]
pub enum ErroAtalhos {
    EscritaDoSnapshot { caminho: String, origem: std::io::Error },
    EsquemaIndisponivel { esquema: String },
    ChaveInexistente { esquema: String, chave: String },
    TipoNaoSuportado { chave: String, tipo: String },
    ValorOriginalInvalido { chave: String, origem: String },
    Escrita { esquema: String, chave: String, origem: String },
}

} // verus!
