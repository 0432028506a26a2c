use vstd::prelude::*;
use crate::chave::{Chave, chaves_suprimidas, lista_de_chaves_suprimidas};
use crate::fonte::ValorOriginal;
use crate::texto::{copiar, textos_iguais};

verus! {

/// Um item do snapshot como fica gravado em disco: três textos.
#[derive(Debug, Clone, PartialEq, Eq)]
pub struct ItemPersistido {
    pub esquema: String,
    pub chave: String,
    pub valor: String,
}

impl View for ItemPersistido {
    type V = (Seq<char>, Seq<char>, Seq<char>);

    open spec fn view(&self) -> (Seq<char>, Seq<char>, Seq<char>) {
        (self.esquema@, self.chave@, self.valor@)
    }
}

/// Os valores originais das chaves suprimidas, na ordem em que foram lidos.
#[derive(Debug, Clone)]
pub struct Snapshot {
    pub itens: Vec<(Chave, ValorOriginal)>,
}

/// Um item do snapshot visto como ((esquema, nome), valor).
pub open spec fn item_visto(item: (Chave, ValorOriginal)) -> ((Seq<char>, Seq<char>), Seq<char>) {
    (item.0@, item.1@)
}

impl View for Snapshot {
    type V = Seq<((Seq<char>, Seq<char>), Seq<char>)>;

    open spec fn view(&self) -> Seq<((Seq<char>, Seq<char>), Seq<char>)> {
        self.itens@.map_values(|item: (Chave, ValorOriginal)| item_visto(item))
    }
}

/// Os itens como são gravados: (esquema, nome, valor).
pub open spec fn persistidos(itens: Seq<((Seq<char>, Seq<char>), Seq<char>)>) -> Seq<(Seq<char>, Seq<char>, Seq<char>)> {
    itens.map_values(|item: ((Seq<char>, Seq<char>), Seq<char>)| (item.0.0, item.0.1, item.1))
}

/// Os itens gravados cujo par (esquema, nome) é uma das chaves suprimidas,
/// na ordem em que aparecem; os demais são descartados.
pub open spec fn conhecidos(itens: Seq<(Seq<char>, Seq<char>, Seq<char>)>) -> Seq<((Seq<char>, Seq<char>), Seq<char>)>
    decreases itens.len(),
{
    if itens.len() == 0 {
        Seq::empty()
    } else {
        let resto = conhecidos(itens.drop_last());
        let ultimo = itens.last();
        if lista_de_chaves_suprimidas().contains((ultimo.0, ultimo.1)) {
            resto.push(((ultimo.0, ultimo.1), ultimo.2))
        } else {
            resto
        }
    }
}

/// A chave suprimida com esse par (esquema, nome), se houver.
fn chave_conhecida(chaves: &Vec<Chave>, esquema: &str, nome: &str) -> (r: Option<Chave>)
    requires
        chaves@.map_values(|c: Chave| c@) == lista_de_chaves_suprimidas(),
    ensures
        r is Some <==> lista_de_chaves_suprimidas().contains((esquema@, nome@)),
        r matches Some(c) ==> c@ == (esquema@, nome@),
{
    let ghost lista = lista_de_chaves_suprimidas();
    let mut i: usize = 0;
    while i < chaves.len()
        invariant
            lista == lista_de_chaves_suprimidas(),
            chaves@.map_values(|c: Chave| c@) == lista,
            i <= chaves.len(),
            forall|k: int| 0 <= k < i ==> lista[k] != (esquema@, nome@),
        decreases chaves.len() - i,
    {
        let c = chaves[i];
        assert(lista[i as int] == c@);
        if textos_iguais(c.esquema, esquema) && textos_iguais(c.nome, nome) {
            assert(lista[i as int] == (esquema@, nome@));
            assert(lista.contains((esquema@, nome@)));
            return Some(c);
        }
        i = i + 1;
    }
    proof {
        if lista.contains((esquema@, nome@)) {
            let k = choose|k: int| 0 <= k < lista.len() && lista[k] == (esquema@, nome@);
            assert(lista[k] != (esquema@, nome@));
        }
    }
    None
}

impl Snapshot {
    /// Os itens na forma em que são gravados.
    pub fn itens_persistidos(&self) -> (r: Vec<ItemPersistido>)
        ensures
            r@.map_values(|item: ItemPersistido| item@) == persistidos(self@),
    {
        let mut r: Vec<ItemPersistido> = Vec::new();
        let mut i: usize = 0;
        while i < self.itens.len()
            invariant
                i <= self.itens.len(),
                r@.map_values(|item: ItemPersistido| item@) == persistidos(self@).take(i as int),
            decreases self.itens.len() - i,
        {
            let par = &self.itens[i];
            let item = ItemPersistido {
                esquema: copiar(par.0.esquema),
                chave: copiar(par.0.nome),
                valor: copiar(par.1.texto()),
            };
            assert(self@[i as int] == item_visto(self.itens@[i as int]));
            assert(item@ == persistidos(self@)[i as int]);
            let ghost antes = r@.map_values(|item: ItemPersistido| item@);
            r.push(item);
            assert(r@.map_values(|item: ItemPersistido| item@) =~= antes.push(item@));
            assert(persistidos(self@).take(i + 1) =~= persistidos(self@).take(i as int).push(persistidos(self@)[i as int]));
            i = i + 1;
        }
        assert(persistidos(self@).take(i as int) =~= persistidos(self@));
        r
    }

    /// O snapshot lido de volta: só os itens de chaves conhecidas, em ordem;
    /// os de chaves que não existem mais são descartados em silêncio.
    pub fn de_itens_persistidos(itens: &Vec<ItemPersistido>) -> (r: Snapshot)
        ensures
            r@ == conhecidos(itens@.map_values(|item: ItemPersistido| item@)),
    {
        let chaves = chaves_suprimidas();
        let ghost vistos = itens@.map_values(|item: ItemPersistido| item@);
        let mut r: Vec<(Chave, ValorOriginal)> = Vec::new();
        let mut i: usize = 0;
        while i < itens.len()
            invariant
                chaves@.map_values(|c: Chave| c@) == lista_de_chaves_suprimidas(),
                vistos == itens@.map_values(|item: ItemPersistido| item@),
                i <= itens.len(),
                r@.map_values(|item: (Chave, ValorOriginal)| item_visto(item)) == conhecidos(vistos.take(i as int)),
            decreases itens.len() - i,
        {
            let item = &itens[i];
            assert(vistos.take(i + 1).drop_last() =~= vistos.take(i as int));
            match chave_conhecida(&chaves, item.esquema.as_str(), item.chave.as_str()) {
                Some(chave) => {
                    r.push((chave, ValorOriginal::novo(copiar(item.valor.as_str()))));
                },
                None => {},
            }
            i = i + 1;
            assert(r@.map_values(|item: (Chave, ValorOriginal)| item_visto(item)) =~= conhecidos(vistos.take(i as int)));
        }
        assert(vistos.take(i as int) =~= vistos);
        Snapshot { itens: r }
    }
}

/// Gravar um snapshot e lê-lo de volta devolve os mesmos itens, na mesma
/// ordem, desde que cada item seja de uma das chaves suprimidas.
pub proof fn ler_o_que_se_gravou_devolve_os_mesmos_itens(itens: Seq<((Seq<char>, Seq<char>), Seq<char>)>)
    requires
        forall|i: int| 0 <= i < itens.len() ==> lista_de_chaves_suprimidas().contains(#[trigger] itens[i].0),
    ensures
        conhecidos(persistidos(itens)) == itens,
    decreases itens.len(),
{
    if itens.len() > 0 {
        let menos = itens.drop_last();
        assert forall|i: int| 0 <= i < menos.len() implies lista_de_chaves_suprimidas().contains(#[trigger] menos[i].0) by {
            assert(menos[i] == itens[i]);
        }
        ler_o_que_se_gravou_devolve_os_mesmos_itens(menos);
        assert(persistidos(itens).drop_last() =~= persistidos(menos));
        assert(itens.last() == itens[itens.len() - 1]);
        assert(menos.push(itens.last()) =~= itens);
    } else {
        assert(itens =~= Seq::empty());
    }
}

} // verus!
