use vstd::prelude::*;
use crate::chave::{Chave, chaves_suprimidas, chaves_suprimidas_sem_par_repetido, lista_de_chaves_suprimidas};
use crate::erro_atalhos::ErroAtalhos;
use crate::fonte::{FonteDeAtalhos, ValorOriginal};
use crate::snapshot::{Snapshot, item_visto};

verus! {

/// O que o gerenciador faz fora de si, na ordem em que o faz: chamadas à
/// fonte de atalhos e operações sobre o snapshot em disco.
pub enum Efeito {
    LerChave((Seq<char>, Seq<char>)),
    DesligarChave((Seq<char>, Seq<char>)),
    ReligarChave((Seq<char>, Seq<char>), Seq<char>),
    GravarSnapshot(Seq<((Seq<char>, Seq<char>), Seq<char>)>),
    LerSnapshot,
    ApagarSnapshot,
}

/// A leitura de cada chave suprimida, na ordem da lista.
pub open spec fn leituras_das_chaves() -> Seq<Efeito> {
    lista_de_chaves_suprimidas().map_values(|c: (Seq<char>, Seq<char>)| Efeito::LerChave(c))
}

/// O desligamento da chave de cada item, na ordem dos itens.
pub open spec fn desligamentos(itens: Seq<((Seq<char>, Seq<char>), Seq<char>)>) -> Seq<Efeito> {
    itens.map_values(|item: ((Seq<char>, Seq<char>), Seq<char>)| Efeito::DesligarChave(item.0))
}

/// A volta de cada item ao seu valor original, na ordem dos itens.
pub open spec fn religacoes(itens: Seq<((Seq<char>, Seq<char>), Seq<char>)>) -> Seq<Efeito> {
    itens.map_values(|item: ((Seq<char>, Seq<char>), Seq<char>)| Efeito::ReligarChave(item.0, item.1))
}

/// Os pares (chave, valor) das leituras que deram certo, na ordem das chaves;
/// `leituras[i]` é o valor lido de `chaves[i]`, ou `None` se a leitura falhou.
pub open spec fn originais_lidos(
    chaves: Seq<(Seq<char>, Seq<char>)>,
    leituras: Seq<Option<Seq<char>>>,
) -> Seq<((Seq<char>, Seq<char>), Seq<char>)>
    decreases chaves.len(),
{
    if chaves.len() == 0 {
        Seq::empty()
    } else {
        let resto = originais_lidos(chaves.drop_last(), leituras.drop_last());
        match leituras.last() {
            Some(valor) => resto.push((chaves.last(), valor)),
            None => resto,
        }
    }
}

proof fn chaves_dos_originais_vem_das_chaves(
    chaves: Seq<(Seq<char>, Seq<char>)>,
    leituras: Seq<Option<Seq<char>>>,
)
    ensures
        forall|k: int| 0 <= k < originais_lidos(chaves, leituras).len()
            ==> chaves.contains(#[trigger] originais_lidos(chaves, leituras)[k].0),
    decreases chaves.len(),
{
    if chaves.len() > 0 {
        let menos = chaves.drop_last();
        chaves_dos_originais_vem_das_chaves(menos, leituras.drop_last());
        let resto = originais_lidos(menos, leituras.drop_last());
        assert forall|k: int| 0 <= k < originais_lidos(chaves, leituras).len()
            implies chaves.contains(#[trigger] originais_lidos(chaves, leituras)[k].0) by {
            if k < resto.len() {
                assert(originais_lidos(chaves, leituras)[k] == resto[k]);
                let j = choose|j: int| 0 <= j < menos.len() && menos[j] == resto[k].0;
                assert(chaves[j] == menos[j]);
            } else {
                assert(chaves[chaves.len() - 1] == chaves.last());
            }
        }
    }
}

proof fn so_a_chave_lida_entra(
    chaves: Seq<(Seq<char>, Seq<char>)>,
    leituras: Seq<Option<Seq<char>>>,
    i: int,
)
    requires
        chaves.no_duplicates(),
        leituras.len() == chaves.len(),
        0 <= i < chaves.len(),
    ensures
        leituras[i] matches Some(valor) ==> originais_lidos(chaves, leituras).contains((chaves[i], valor)),
        leituras[i] is None ==> forall|k: int| 0 <= k < originais_lidos(chaves, leituras).len()
            ==> #[trigger] originais_lidos(chaves, leituras)[k].0 != chaves[i],
    decreases chaves.len(),
{
    let n = chaves.len() - 1;
    let menos = chaves.drop_last();
    let leituras_menos = leituras.drop_last();
    let resto = originais_lidos(menos, leituras_menos);
    let todos = originais_lidos(chaves, leituras);
    assert(leituras.last() == leituras[n]);
    assert(chaves.last() == chaves[n]);
    chaves_dos_originais_vem_das_chaves(menos, leituras_menos);
    if i < n {
        assert(menos.no_duplicates());
        so_a_chave_lida_entra(menos, leituras_menos, i);
        assert(menos[i] == chaves[i]);
        assert(leituras_menos[i] == leituras[i]);
        if let Some(valor) = leituras[i] {
            let k = choose|k: int| 0 <= k < resto.len() && resto[k] == (chaves[i], valor);
            assert(todos[k] == resto[k]);
        }
        if leituras[i] is None {
            assert forall|k: int| 0 <= k < todos.len() implies #[trigger] todos[k].0 != chaves[i] by {
                if k < resto.len() {
                    assert(todos[k] == resto[k]);
                }
            }
        }
    } else {
        if let Some(valor) = leituras[i] {
            assert(todos[resto.len() as int] == (chaves[i], valor));
        }
        if leituras[i] is None {
            assert forall|k: int| 0 <= k < todos.len() implies #[trigger] todos[k].0 != chaves[i] by {
                assert(todos[k] == resto[k]);
                assert(menos.contains(resto[k].0));
                let j = choose|j: int| 0 <= j < menos.len() && menos[j] == resto[k].0;
                assert(chaves[j] == menos[j]);
            }
        }
    }
}

/// Uma chave suprimida entra no snapshot, e portanto é desligada, se e só se
/// a sua leitura deu certo, e entra com o valor lido.
pub proof fn so_a_chave_lida_entra_no_snapshot(leituras: Seq<Option<Seq<char>>>, i: int)
    requires
        leituras.len() == lista_de_chaves_suprimidas().len(),
        0 <= i < lista_de_chaves_suprimidas().len(),
    ensures
        leituras[i] matches Some(valor) ==> originais_lidos(lista_de_chaves_suprimidas(), leituras).contains(
            (lista_de_chaves_suprimidas()[i], valor),
        ),
        leituras[i] is None ==> forall|k: int| 0 <= k < originais_lidos(lista_de_chaves_suprimidas(), leituras).len()
            ==> #[trigger] originais_lidos(lista_de_chaves_suprimidas(), leituras)[k].0 != lista_de_chaves_suprimidas()[i],
{
    chaves_suprimidas_sem_par_repetido();
    so_a_chave_lida_entra(lista_de_chaves_suprimidas(), leituras, i);
}

/// O valor que uma leitura devolveu, ou `None` se ela falhou.
pub open spec fn valor_lido(lido: Result<ValorOriginal, ErroAtalhos>) -> Option<Seq<char>> {
    match lido {
        Ok(valor) => Some(valor@),
        Err(_) => None,
    }
}

/// Os valores lidos, na ordem das leituras.
pub open spec fn valores_lidos(lidas: Seq<(Chave, Result<ValorOriginal, ErroAtalhos>)>) -> Seq<Option<Seq<char>>> {
    lidas.map_values(|lida: (Chave, Result<ValorOriginal, ErroAtalhos>)| valor_lido(lida.1))
}

/// `lidas` são as leituras que `fonte.ler` fez, uma por chave suprimida, na
/// ordem da lista, cada uma com o que a chamada devolveu.
pub open spec fn leu_cada_chave<F: FonteDeAtalhos>(
    fonte: F,
    lidas: Seq<(Chave, Result<ValorOriginal, ErroAtalhos>)>,
) -> bool {
    &&& lidas.len() == lista_de_chaves_suprimidas().len()
    &&& forall|i: int| 0 <= i < lidas.len() ==> (#[trigger] lidas[i]).0@ == lista_de_chaves_suprimidas()[i]
    &&& forall|i: int| 0 <= i < lidas.len() ==> call_ensures(F::ler, (&fonte, &(#[trigger] lidas[i]).0), lidas[i].1)
}

/// `fonte.desligar` foi chamada para a chave de cada item.
pub open spec fn desligou_cada_chave<F: FonteDeAtalhos>(fonte: F, itens: Seq<(Chave, ValorOriginal)>) -> bool {
    forall|k: int| 0 <= k < itens.len() ==> exists|resultado: Result<(), ErroAtalhos>|
        call_ensures(F::desligar, (&fonte, &(#[trigger] itens[k]).0), resultado)
}

/// `fonte.religar` foi chamada para cada item, com o seu valor original.
pub open spec fn religou_cada_chave<F: FonteDeAtalhos>(fonte: F, itens: Seq<(Chave, ValorOriginal)>) -> bool {
    forall|k: int| 0 <= k < itens.len() ==> exists|resultado: Result<(), ErroAtalhos>|
        call_ensures(F::religar, (&fonte, &(#[trigger] itens[k]).0, &itens[k].1), resultado)
}

/// Supressão temporária dos atalhos: o snapshot dos valores originais é
/// gravado antes de tocar em qualquer chave, e restaurado no fim do bloqueio
/// ou, se ficou pendente, na próxima inicialização.
pub struct GerenciadorDeAtalhos<F: FonteDeAtalhos> {
    fonte: F,
    suprimido: bool,
    efeitos: Ghost<Seq<Efeito>>,
}

impl<F: FonteDeAtalhos> GerenciadorDeAtalhos<F> {
    /// Se há supressão ativa.
    pub closed spec fn esta_suprimido(&self) -> bool {
        self.suprimido
    }

    /// A fonte de atalhos com que o gerenciador foi criado.
    pub closed spec fn fonte(&self) -> F {
        self.fonte
    }

    /// Tudo o que este gerenciador fez fora de si, em ordem.
    pub closed spec fn efeitos(&self) -> Seq<Efeito> {
        self.efeitos@
    }

    pub fn novo(fonte: F) -> (r: Self)
        ensures
            !r.esta_suprimido(),
            r.fonte() == fonte,
            r.efeitos() == Seq::<Efeito>::empty(),
    {
        GerenciadorDeAtalhos { fonte, suprimido: false, efeitos: Ghost(Seq::empty()) }
    }

    fn registrar(&mut self, efeito: Ghost<Efeito>)
        ensures
            final(self).suprimido == old(self).suprimido,
            final(self).fonte == old(self).fonte,
            final(self).efeitos@ == old(self).efeitos@.push(efeito@),
    {
        self.efeitos = Ghost(self.efeitos@.push(efeito@));
    }

    /// Lê o valor de cada chave suprimida; uma leitura que falha exclui a
    /// chave do resultado, sem impedir as demais.
    fn ler_originais(&mut self) -> (r: (Vec<(Chave, ValorOriginal)>, Ghost<Seq<(Chave, Result<ValorOriginal, ErroAtalhos>)>>))
        ensures
            leu_cada_chave(old(self).fonte, r.1@),
            r.0@.map_values(|item: (Chave, ValorOriginal)| item_visto(item))
                == originais_lidos(lista_de_chaves_suprimidas(), valores_lidos(r.1@)),
            final(self).suprimido == old(self).suprimido,
            final(self).fonte == old(self).fonte,
            final(self).efeitos@ == old(self).efeitos@ + leituras_das_chaves(),
    {
        let ghost lista = lista_de_chaves_suprimidas();
        let chaves = chaves_suprimidas();
        let mut r: Vec<(Chave, ValorOriginal)> = Vec::new();
        let ghost mut lidas: Seq<(Chave, Result<ValorOriginal, ErroAtalhos>)> = Seq::empty();
        let mut i: usize = 0;
        while i < chaves.len()
            invariant
                lista == lista_de_chaves_suprimidas(),
                chaves@.map_values(|c: Chave| c@) == lista,
                i <= chaves.len(),
                lidas.len() == i,
                forall|k: int| 0 <= k < lidas.len() ==> (#[trigger] lidas[k]).0@ == lista[k],
                forall|k: int| 0 <= k < lidas.len() ==> call_ensures(F::ler, (&old(self).fonte, &(#[trigger] lidas[k]).0), lidas[k].1),
                r@.map_values(|item: (Chave, ValorOriginal)| item_visto(item))
                    == originais_lidos(lista.take(i as int), valores_lidos(lidas)),
                self.suprimido == old(self).suprimido,
                self.fonte == old(self).fonte,
                self.efeitos@ == old(self).efeitos@ + leituras_das_chaves().take(i as int),
            decreases chaves.len() - i,
        {
            let chave = chaves[i];
            assert(chave@ == lista[i as int]);
            let lido = self.fonte.ler(&chave);
            let ghost lido_visto = lido;
            self.registrar(Ghost(Efeito::LerChave(chave@)));
            let ghost antes = r@.map_values(|item: (Chave, ValorOriginal)| item_visto(item));
            let ghost prefixo = lista.take(i as int);
            let ghost lidas_antes = lidas;
            proof { lidas = lidas.push((chave, lido_visto)); }
            match lido {
                Ok(valor) => {
                    r.push((chave, valor));
                    assert(r@.map_values(|item: (Chave, ValorOriginal)| item_visto(item)) =~= antes.push((chave@, valor@)));
                },
                Err(_) => {},
            }
            assert(lista.take(i + 1).drop_last() =~= prefixo);
            assert(valores_lidos(lidas).drop_last() =~= valores_lidos(lidas_antes));
            assert(valores_lidos(lidas).last() == valor_lido(lido_visto));
            assert(lista.take(i + 1).last() == chave@);
            i = i + 1;
            assert(self.efeitos@ =~= old(self).efeitos@ + leituras_das_chaves().take(i as int));
        }
        assert(lista.take(i as int) =~= lista);
        assert(leituras_das_chaves().take(i as int) =~= leituras_das_chaves());
        (r, Ghost(lidas))
    }

    /// Desliga a chave de cada item; uma falha não impede as demais.
    fn desligar_todas(&mut self, itens: &Vec<(Chave, ValorOriginal)>)
        ensures
            final(self).suprimido == old(self).suprimido,
            final(self).efeitos@ == old(self).efeitos@
                + desligamentos(itens@.map_values(|item: (Chave, ValorOriginal)| item_visto(item))),
            final(self).fonte == old(self).fonte,
            desligou_cada_chave(old(self).fonte, itens@),
    {
        let ghost vistos = itens@.map_values(|item: (Chave, ValorOriginal)| item_visto(item));
        let mut i: usize = 0;
        while i < itens.len()
            invariant
                vistos == itens@.map_values(|item: (Chave, ValorOriginal)| item_visto(item)),
                i <= itens.len(),
                self.suprimido == old(self).suprimido,
                self.efeitos@ == old(self).efeitos@ + desligamentos(vistos).take(i as int),
                self.fonte == old(self).fonte,
                desligou_cada_chave(old(self).fonte, itens@.take(i as int)),
            decreases itens.len() - i,
        {
            let resultado = self.fonte.desligar(&itens[i].0);
            assert(call_ensures(F::desligar, (&old(self).fonte, &itens@[i as int].0), resultado));
            assert(itens@.take(i + 1)[i as int] == itens@[i as int]);
            assert forall|k: int| 0 <= k < i implies itens@.take(i + 1)[k] == #[trigger] itens@.take(i as int)[k] by {}
            self.registrar(Ghost(Efeito::DesligarChave(itens@[i as int].0@)));
            i = i + 1;
            assert(self.efeitos@ =~= old(self).efeitos@ + desligamentos(vistos).take(i as int));
        }
        assert(desligamentos(vistos).take(i as int) =~= desligamentos(vistos));
        assert(itens@.take(i as int) =~= itens@);
    }

    /// Devolve cada item ao seu valor original; uma falha não impede os demais.
    fn aplicar_originais(&mut self, itens: &Vec<(Chave, ValorOriginal)>)
        ensures
            final(self).suprimido == old(self).suprimido,
            final(self).efeitos@ == old(self).efeitos@
                + religacoes(itens@.map_values(|item: (Chave, ValorOriginal)| item_visto(item))),
            final(self).fonte == old(self).fonte,
            religou_cada_chave(old(self).fonte, itens@),
    {
        let ghost vistos = itens@.map_values(|item: (Chave, ValorOriginal)| item_visto(item));
        let mut i: usize = 0;
        while i < itens.len()
            invariant
                vistos == itens@.map_values(|item: (Chave, ValorOriginal)| item_visto(item)),
                i <= itens.len(),
                self.suprimido == old(self).suprimido,
                self.efeitos@ == old(self).efeitos@ + religacoes(vistos).take(i as int),
                self.fonte == old(self).fonte,
                religou_cada_chave(old(self).fonte, itens@.take(i as int)),
            decreases itens.len() - i,
        {
            let resultado = self.fonte.religar(&itens[i].0, &itens[i].1);
            assert(call_ensures(F::religar, (&old(self).fonte, &itens@[i as int].0, &itens@[i as int].1), resultado));
            assert(itens@.take(i + 1)[i as int] == itens@[i as int]);
            assert forall|k: int| 0 <= k < i implies itens@.take(i + 1)[k] == #[trigger] itens@.take(i as int)[k] by {}
            self.registrar(Ghost(Efeito::ReligarChave(itens@[i as int].0@, itens@[i as int].1@)));
            i = i + 1;
            assert(self.efeitos@ =~= old(self).efeitos@ + religacoes(vistos).take(i as int));
        }
        assert(religacoes(vistos).take(i as int) =~= religacoes(vistos));
        assert(itens@.take(i as int) =~= itens@);
    }

    /// Chamar uma vez na inicialização, antes de qualquer supressão. `ler`
    /// devolve o snapshot deixado por uma execução anterior que não chegou a
    /// restaurar (ou `None`, sem snapshot); havendo um, cada chave volta ao seu
    /// valor original e `apagar` remove o snapshot. Sem snapshot, nada muda.
    pub fn recuperar_pendente<L, A>(&mut self, ler: L, apagar: A)
        where
            L: FnOnce() -> Option<Snapshot>,
            A: FnOnce() -> Result<(), ErroAtalhos>,
        requires
            ler.requires(()),
            apagar.requires(()),
        ensures
            final(self).esta_suprimido() == old(self).esta_suprimido(),
            final(self).fonte() == old(self).fonte(),
            exists|lido: Option<Snapshot>| {
                &&& ler.ensures((), lido)
                &&& final(self).efeitos() == old(self).efeitos().push(Efeito::LerSnapshot) + match lido {
                    Some(snapshot) => religacoes(snapshot@).push(Efeito::ApagarSnapshot),
                    None => Seq::<Efeito>::empty(),
                }
                &&& lido matches Some(snapshot) ==> {
                    &&& religou_cada_chave(old(self).fonte(), snapshot.itens@)
                    &&& exists|apagado: Result<(), ErroAtalhos>| apagar.ensures((), apagado)
                }
            },
    {
        let lido = ler();
        self.registrar(Ghost(Efeito::LerSnapshot));
        let ghost depois_de_ler = self.efeitos@;
        match &lido {
            Some(snapshot) => {
                self.aplicar_originais(&snapshot.itens);
                let apagado = apagar();
                assert(apagar.ensures((), apagado));
                self.registrar(Ghost(Efeito::ApagarSnapshot));
                assert(self.efeitos@ =~= depois_de_ler + religacoes(snapshot@).push(Efeito::ApagarSnapshot));
            },
            None => {
                assert(self.efeitos@ =~= depois_de_ler + Seq::<Efeito>::empty());
            },
        }
    }

    /// Lê o valor original de cada chave suprimida, entrega o snapshot a
    /// `gravar` e só então desliga as chaves lidas. Uma leitura que falha
    /// exclui a chave; um desligamento que falha não impede os demais. Se
    /// `gravar` falha, nenhuma chave é tocada e o erro é devolvido.
    /// Idempotente: enquanto já suprimido, nada acontece.
    pub fn suprimir<G>(&mut self, gravar: G) -> (r: Result<(), ErroAtalhos>)
        where
            G: FnOnce(&Snapshot) -> Result<(), ErroAtalhos>,
        requires
            forall|snapshot: &Snapshot| gravar.requires((snapshot,)),
        ensures
            old(self).esta_suprimido() ==> {
                &&& r is Ok
                &&& final(self).esta_suprimido()
                &&& final(self).efeitos() == old(self).efeitos()
            },
            final(self).fonte() == old(self).fonte(),
            !old(self).esta_suprimido() ==> exists|
                lidas: Seq<(Chave, Result<ValorOriginal, ErroAtalhos>)>,
                snapshot: Snapshot,
            | {
                &&& leu_cada_chave(old(self).fonte(), lidas)
                &&& snapshot@ == originais_lidos(lista_de_chaves_suprimidas(), valores_lidos(lidas))
                &&& gravar.ensures((&snapshot,), r)
                &&& r is Ok ==> desligou_cada_chave(old(self).fonte(), snapshot.itens@)
                &&& final(self).esta_suprimido() == (r is Ok)
                &&& final(self).efeitos() == old(self).efeitos() + leituras_das_chaves()
                    + seq![Efeito::GravarSnapshot(snapshot@)]
                    + if r is Ok { desligamentos(snapshot@) } else { Seq::<Efeito>::empty() }
            },
    {
        if self.suprimido {
            return Ok(());
        }
        let (itens, Ghost(lidas)) = self.ler_originais();
        let snapshot = Snapshot { itens };
        let gravado = gravar(&snapshot);
        self.registrar(Ghost(Efeito::GravarSnapshot(snapshot@)));
        if gravado.is_ok() {
            self.desligar_todas(&snapshot.itens);
            self.suprimido = true;
            assert(self.efeitos@ =~= old(self).efeitos@ + leituras_das_chaves()
                + seq![Efeito::GravarSnapshot(snapshot@)] + desligamentos(snapshot@));
        } else {
            assert(self.efeitos@ =~= old(self).efeitos@ + leituras_das_chaves()
                + seq![Efeito::GravarSnapshot(snapshot@)] + Seq::<Efeito>::empty());
        }
        proof {
            assert(leu_cada_chave(old(self).fonte(), lidas));
            assert(snapshot@ == originais_lidos(lista_de_chaves_suprimidas(), valores_lidos(lidas)));
            assert(gravar.ensures((&snapshot,), gravado));
            assert(gravado is Ok ==> desligou_cada_chave(old(self).fonte(), snapshot.itens@));
        }
        gravado
    }

    /// Fim da supressão: `ler` devolve o snapshot gravado, cada chave volta ao
    /// seu valor original e `apagar` remove o snapshot. Idempotente: sem
    /// supressão ativa, nada acontece.
    pub fn restaurar<L, A>(&mut self, ler: L, apagar: A)
        where
            L: FnOnce() -> Option<Snapshot>,
            A: FnOnce() -> Result<(), ErroAtalhos>,
        requires
            ler.requires(()),
            apagar.requires(()),
        ensures
            !final(self).esta_suprimido(),
            !old(self).esta_suprimido() ==> final(self).efeitos() == old(self).efeitos(),
            final(self).fonte() == old(self).fonte(),
            old(self).esta_suprimido() ==> exists|lido: Option<Snapshot>| {
                &&& ler.ensures((), lido)
                &&& final(self).efeitos() == old(self).efeitos().push(Efeito::LerSnapshot) + match lido {
                    Some(snapshot) => religacoes(snapshot@),
                    None => Seq::<Efeito>::empty(),
                }.push(Efeito::ApagarSnapshot)
                &&& lido matches Some(snapshot) ==> religou_cada_chave(old(self).fonte(), snapshot.itens@)
            },
            old(self).esta_suprimido() ==> exists|apagado: Result<(), ErroAtalhos>| apagar.ensures((), apagado),
    {
        if !self.suprimido {
            return;
        }
        let lido = ler();
        self.registrar(Ghost(Efeito::LerSnapshot));
        let ghost depois_de_ler = self.efeitos@;
        match &lido {
            Some(snapshot) => {
                self.aplicar_originais(&snapshot.itens);
            },
            None => {},
        }
        let apagado = apagar();
        assert(apagar.ensures((), apagado));
        self.registrar(Ghost(Efeito::ApagarSnapshot));
        self.suprimido = false;
        assert(self.efeitos@ =~= depois_de_ler + match lido {
            Some(snapshot) => religacoes(snapshot@),
            None => Seq::<Efeito>::empty(),
        }.push(Efeito::ApagarSnapshot));
    }
}

} // verus!
