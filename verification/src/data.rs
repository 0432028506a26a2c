use vstd::prelude::*;
use core::cmp::Ordering;
use vstd::std_specs::cmp::PartialOrdSpecImpl;

verus! {

/// Data de calendário (ano-mês-dia), sem fuso.
#[derive(Debug, Clone, Copy, PartialEq, Eq, Structural, Ord, Hash)]
pub struct Data {
    ano: u16,
    mes: u8,
    dia: u8,
}

impl View for Data {
    type V = (u16, u8, u8);

    closed spec fn view(&self) -> (u16, u8, u8) {
        (self.ano, self.mes, self.dia)
    }
}

/// Duas datas com a mesma visão são a mesma data.
pub proof fn datas_iguais_pela_visao(a: Data, b: Data)
    ensures
        a@ == b@ <==> a == b,
{
}

/// Ordem cronológica de duas datas vistas como (ano, mês, dia): pelo ano,
/// depois pelo mês, depois pelo dia.
pub open spec fn comparacao_cronologica(a: (u16, u8, u8), b: (u16, u8, u8)) -> Ordering {
    if a.0 < b.0 {
        Ordering::Less
    } else if a.0 > b.0 {
        Ordering::Greater
    } else if a.1 < b.1 {
        Ordering::Less
    } else if a.1 > b.1 {
        Ordering::Greater
    } else if a.2 < b.2 {
        Ordering::Less
    } else if a.2 > b.2 {
        Ordering::Greater
    } else {
        Ordering::Equal
    }
}

impl PartialOrd for Data {
    fn partial_cmp(&self, other: &Data) -> (r: Option<Ordering>) {
        if self.ano < other.ano {
            Some(Ordering::Less)
        } else if self.ano > other.ano {
            Some(Ordering::Greater)
        } else if self.mes < other.mes {
            Some(Ordering::Less)
        } else if self.mes > other.mes {
            Some(Ordering::Greater)
        } else if self.dia < other.dia {
            Some(Ordering::Less)
        } else if self.dia > other.dia {
            Some(Ordering::Greater)
        } else {
            Some(Ordering::Equal)
        }
    }
}

impl PartialOrdSpecImpl for Data {
    open spec fn obeys_partial_cmp_spec() -> bool {
        true
    }

    open spec fn partial_cmp_spec(&self, other: &Data) -> Option<Ordering> {
        Some(comparacao_cronologica(self@, other@))
    }
}

/// Uma data vem antes de outra se e só se tem ano menor, ou o mesmo ano e mês
/// menor, ou o mesmo ano e mês e dia menor; datas iguais comparam iguais.
pub proof fn ordem_cronologica_das_datas(a: Data, b: Data)
    ensures
        (comparacao_cronologica(a@, b@) == Ordering::Less) <==> (a@.0 < b@.0 || (a@.0 == b@.0 && (a@.1 < b@.1
            || (a@.1 == b@.1 && a@.2 < b@.2)))),
        (comparacao_cronologica(a@, b@) == Ordering::Equal) <==> a == b,
        comparacao_cronologica(a@, b@) == Ordering::Less <==> comparacao_cronologica(b@, a@) == Ordering::Greater,
{
}

impl Data {
    /// A data com estes componentes.
    pub closed spec fn de_spec(ano: u16, mes: u8, dia: u8) -> Data {
        Data { ano, mes, dia }
    }

    /// A data construída tem a visão dos seus componentes.
    pub proof fn de_spec_visao(ano: u16, mes: u8, dia: u8)
        ensures
            #[trigger] Data::de_spec(ano, mes, dia)@ == (ano, mes, dia),
    {
    }

    pub fn de(ano: u16, mes: u8, dia: u8) -> (r: Self)
        ensures
            r@ == (ano, mes, dia),
            r == Data::de_spec(ano, mes, dia),
    {
        Self { ano, mes, dia }
    }

    pub fn ano(self) -> (r: u16)
        ensures
            r == self@.0,
    {
        self.ano
    }

    pub fn mes(self) -> (r: u8)
        ensures
            r == self@.1,
    {
        self.mes
    }

    pub fn dia(self) -> (r: u8)
        ensures
            r == self@.2,
    {
        self.dia
    }
}

} // verus!
