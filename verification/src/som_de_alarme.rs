use vstd::prelude::*;

verus! {

/// Som de alarme tocado nas transições de etapa de uma sessão sem URL de
/// atividade aplicável. Preferência pura do frontend.
#[derive(Debug, Clone, Copy, PartialEq, Eq, Structural)]
pub enum SomDeAlarme {
    Classico,
    Suave,
    Urgente,
}

impl Default for SomDeAlarme {
    fn default() -> (r: Self)
        ensures
            r == SomDeAlarme::Classico,
    {
        SomDeAlarme::Classico
    }
}

} // verus!
